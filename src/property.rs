//! Properties: which accessor gives a property its type.

use crate::reference::{NonNullRef, Ref};
use vstd::prelude::*;

verus! {

/// Whether a property's type can be found: from the getter's return type
/// when there is a getter, otherwise from the setter's last parameter.
pub open spec fn property_type_known<T>(
    getter_return: Option<Ref<T, ()>>,
    setter_params: Option<&Vec<Ref<T, ()>>>,
) -> bool {
    match getter_return {
        Some(t) => t@ != 0,
        None => match setter_params {
            Some(ps) => ps@.len() > 0 && ps@.last()@ != 0,
            None => false,
        },
    }
}

/// The address of a property's type, as [`property_type_known`] finds it.
pub open spec fn property_type_addr<T>(
    getter_return: Option<Ref<T, ()>>,
    setter_params: Option<&Vec<Ref<T, ()>>>,
) -> usize {
    match getter_return {
        Some(t) => t@,
        None => setter_params.unwrap()@.last()@,
    }
}

/// The type of a property, from the return type of its getter, if it has
/// one, and otherwise from the parameters of its setter: the value a setter
/// takes is its last parameter.
///
/// `getter_return` is `None` when the property has no getter;
/// `setter_params` is `None` when it has no setter.
pub fn property_type<T>(getter_return: Option<Ref<T, ()>>, setter_params: Option<&Vec<Ref<T, ()>>>) -> (r:
    NonNullRef<T, ()>)
    requires
        property_type_known(getter_return, setter_params),
    ensures
        r@ == property_type_addr(getter_return, setter_params),
{
    match getter_return {
        Some(t) => t.unwrap_non_null(),
        None => {
            let params = setter_params.unwrap();
            let last = params[params.len() - 1];
            last.unwrap_non_null()
        },
    }
}

} // verus!
