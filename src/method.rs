//! Methods: their printable signature and the outcome of an invocation.

use crate::reference::Ref;
use vstd::prelude::*;
use vstd::string::StringExecFns;

verus! {

/// One parameter as `<type name> <parameter name>`.
pub open spec fn parameter_text(ty: Seq<char>, name: Seq<char>) -> Seq<char> {
    ty + seq![' '] + name
}

/// The parameters, each as [`parameter_text`], separated by `", "`.
pub open spec fn parameter_list(params: Seq<(String, String)>) -> Seq<char>
    decreases params.len(),
{
    if params.len() == 0 {
        Seq::empty()
    } else if params.len() == 1 {
        parameter_text(params[0].0@, params[0].1@)
    } else {
        parameter_list(params.drop_last()) + seq![',', ' '] + parameter_text(
            params.last().0@,
            params.last().1@,
        )
    }
}

/// `<return type> <name>(<parameter list>)`.
pub open spec fn signature_text(
    return_type: Seq<char>,
    name: Seq<char>,
    params: Seq<(String, String)>,
) -> Seq<char> {
    return_type + seq![' '] + name + seq!['('] + parameter_list(params) + seq![')']
}

/// Human-readable method signature, from the return type's name, the
/// method's name and each parameter as a pair (type name, parameter name).
///
/// The result is indicative only: it says nothing of `ref`, `out` or
/// generic parameters.
pub fn signature(return_type: &str, name: &str, params: &Vec<(String, String)>) -> (r: String)
    ensures
        r@ == signature_text(return_type@, name@, params@),
{
    let mut list = String::new();
    let mut i: usize = 0;
    while i < params.len()
        invariant
            i <= params@.len(),
            list@ == parameter_list(params@.subrange(0, i as int)),
        decreases params@.len() - i,
    {
        let ghost before = list@;
        if i > 0 {
            list.append(", ");
        }
        list.append(params[i].0.as_str());
        list.append(" ");
        list.append(params[i].1.as_str());
        proof {
            reveal_strlit(", ");
            reveal_strlit(" ");
            let next = params@.subrange(0, i + 1);
            assert(next.drop_last() =~= params@.subrange(0, i as int));
            assert(next.last() == params@[i as int]);
            if i == 0 {
                assert(list@ =~= parameter_text(params@[0].0@, params@[0].1@));
            } else {
                assert(list@ =~= before + seq![',', ' '] + parameter_text(
                    params@[i as int].0@,
                    params@[i as int].1@,
                ));
            }
        }
        i = i + 1;
    }
    assert(params@.subrange(0, params@.len() as int) =~= params@);
    let mut out = String::from_str(return_type);
    out.append(" ");
    out.append(name);
    out.append("(");
    out.append(list.as_str());
    out.append(")");
    proof {
        reveal_strlit(" ");
        reveal_strlit("(");
        reveal_strlit(")");
        assert(out@ =~= signature_text(return_type@, name@, params@));
    }
    out
}

/// What an invocation hands back: the returned object when the runtime
/// reported no exception, otherwise the exception.
pub fn invoke_outcome<O, E>(result: Ref<O, ()>, exception: Ref<E, ()>) -> (r: Result<
    Ref<O, ()>,
    Ref<E, ()>,
>)
    ensures
        exception@ == 0 ==> (r matches Ok(o) && o@ == result@),
        exception@ != 0 ==> (r matches Err(e) && e@ == exception@),
{
    if exception.is_null() {
        Ok(result)
    } else {
        Err(exception)
    }
}

/// Whether `index` names one of a method's `count` parameters.
pub fn parameter_index_valid(index: u8, count: u8) -> (r: bool)
    ensures
        r == (index < count),
{
    index < count
}

} // verus!
