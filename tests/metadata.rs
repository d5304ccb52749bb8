use il2cpp_rs::{
    bytes_equal, find_by_name, full_name, invoke_outcome, parameter_index_valid, property_type,
    signature, until_nul, AssemblyClassIter, FieldFlags, MethodFlags, NonNullRef, Ref,
};

struct Type;
struct Image;
struct Exception;

#[test]
fn full_name_joins_namespace_and_name() {
    assert_eq!(full_name("System", "Object"), "System.Object");
    assert_eq!(full_name("UnityEngine.UI", "Button"), "UnityEngine.UI.Button");
}

#[test]
fn full_name_global_namespace_is_bare_name() {
    assert_eq!(full_name("", "Program"), "Program");
}

#[test]
fn signature_without_parameters() {
    let params: Vec<(String, String)> = Vec::new();
    assert_eq!(signature("System.Void", "Update", &params), "System.Void Update()");
}

#[test]
fn signature_with_one_parameter() {
    let params = vec![("System.Int32".to_string(), "count".to_string())];
    assert_eq!(
        signature("System.Boolean", "Grow", &params),
        "System.Boolean Grow(System.Int32 count)"
    );
}

#[test]
fn signature_with_several_parameters() {
    let params = vec![
        ("System.String".to_string(), "name".to_string()),
        ("System.Int32".to_string(), "index".to_string()),
        ("System.Object".to_string(), "".to_string()),
    ];
    assert_eq!(
        signature("System.Object", "Find", &params),
        "System.Object Find(System.String name, System.Int32 index, System.Object )"
    );
}

#[test]
fn field_flags_decode() {
    // public static readonly
    let f = FieldFlags::new(0x0036);
    assert_eq!(f.accessibility(), 6);
    assert!(f.is_static());
    assert!(f.is_readonly());
    assert!(!f.is_const());
    // private const
    let c = FieldFlags::new(0x0051);
    assert_eq!(c.accessibility(), 1);
    assert!(c.is_static());
    assert!(!c.is_readonly());
    assert!(c.is_const());
}

#[test]
fn field_flags_empty() {
    let f = FieldFlags::new(0);
    assert_eq!(f.accessibility(), 0);
    assert!(!f.is_static());
    assert!(!f.is_readonly());
    assert!(!f.is_const());
}

#[test]
fn method_flags_decode() {
    // public virtual abstract
    let m = MethodFlags::new(0x0446);
    assert_eq!(m.accessibility(), 6);
    assert!(!m.is_static());
    assert!(!m.is_final());
    assert!(m.is_virtual());
    assert!(m.is_abstract());
    // internal static final
    let s = MethodFlags::new(0x0033);
    assert_eq!(s.accessibility(), 3);
    assert!(s.is_static());
    assert!(s.is_final());
    assert!(!s.is_virtual());
    assert!(!s.is_abstract());
}

#[test]
fn flags_all_bits_set() {
    assert_eq!(FieldFlags::new(u32::MAX).accessibility(), 7);
    assert_eq!(MethodFlags::new(u32::MAX).accessibility(), 7);
}

#[test]
fn invoke_outcome_without_exception() {
    let result: Ref<Type, ()> = Ref::new(0x500);
    let exception: Ref<Exception, ()> = Ref::null();
    let r = invoke_outcome(result, exception);
    assert_eq!(r.ok().map(|o| o.as_ptr()), Some(0x500));
}

#[test]
fn invoke_outcome_null_result_without_exception() {
    let result: Ref<Type, ()> = Ref::null();
    let exception: Ref<Exception, ()> = Ref::null();
    let r = invoke_outcome(result, exception);
    assert!(r.is_ok());
    assert!(r.ok().map(|o| o.is_null()).unwrap_or(false));
}

#[test]
fn invoke_outcome_with_exception() {
    let result: Ref<Type, ()> = Ref::new(0x500);
    let exception: Ref<Exception, ()> = Ref::new(0x900);
    let r = invoke_outcome(result, exception);
    assert_eq!(r.err().map(|e| e.as_ptr()), Some(0x900));
}

#[test]
fn parameter_index_bounds() {
    assert!(parameter_index_valid(0, 1));
    assert!(parameter_index_valid(2, 3));
    assert!(!parameter_index_valid(3, 3));
    assert!(!parameter_index_valid(0, 0));
}

#[test]
fn property_type_from_getter() {
    let setter_params = vec![Ref::<Type, ()>::new(0x30)];
    let t = property_type(Some(Ref::new(0x10)), Some(&setter_params));
    assert_eq!(t.as_ptr(), 0x10);
}

#[test]
fn property_type_from_setter_last_parameter() {
    let setter_params = vec![Ref::<Type, ()>::new(0x20), Ref::new(0x30)];
    let t = property_type(None, Some(&setter_params));
    assert_eq!(t.as_ptr(), 0x30);
}

#[test]
fn bytes_equal_compares_contents() {
    assert!(bytes_equal(b"mscorlib", b"mscorlib"));
    assert!(!bytes_equal(b"mscorlib", b"mscorlib.dll"));
    assert!(!bytes_equal(b"abc", b"abd"));
    assert!(bytes_equal(b"", b""));
}

#[test]
fn find_by_name_first_match() {
    let names = vec![
        b"mscorlib".to_vec(),
        b"Assembly-CSharp".to_vec(),
        b"UnityEngine".to_vec(),
        b"Assembly-CSharp".to_vec(),
    ];
    assert_eq!(find_by_name(&names, b"Assembly-CSharp"), Some(1));
    assert_eq!(find_by_name(&names, b"mscorlib"), Some(0));
    assert_eq!(find_by_name(&names, b"System"), None);
}

#[test]
fn find_by_name_empty_list() {
    let names: Vec<Vec<u8>> = Vec::new();
    assert_eq!(find_by_name(&names, b"mscorlib"), None);
}

#[test]
fn until_nul_stops_at_terminator() {
    let buffer = b"NullReferenceException\0garbage".to_vec();
    assert_eq!(until_nul(&buffer), b"NullReferenceException".to_vec());
}

#[test]
fn until_nul_without_terminator_keeps_all() {
    let buffer = b"truncated".to_vec();
    assert_eq!(until_nul(&buffer), b"truncated".to_vec());
}

#[test]
fn until_nul_empty_and_leading_nul() {
    assert_eq!(until_nul(&Vec::new()), Vec::<u8>::new());
    assert_eq!(until_nul(&vec![0, 65, 66]), Vec::<u8>::new());
}

#[test]
fn class_iter_walks_each_index_once() {
    let image = NonNullRef::<Image, ()>::from_ptr(0x4000).expect("address is not zero");
    let mut it = AssemblyClassIter::new(image, 3);
    assert_eq!(it.image().as_ptr(), 0x4000);
    assert_eq!(it.remaining(), 3);
    assert_eq!(it.next_index(), Some(0));
    assert_eq!(it.next_index(), Some(1));
    assert_eq!(it.remaining(), 1);
    assert_eq!(it.next_index(), Some(2));
    assert_eq!(it.next_index(), None);
    assert_eq!(it.next_index(), None);
    assert_eq!(it.remaining(), 0);
}

#[test]
fn class_iter_empty_image() {
    let image = NonNullRef::<Image, ()>::from_ptr(0x4000).expect("address is not zero");
    let mut it = AssemblyClassIter::new(image, 0);
    assert_eq!(it.next_index(), None);
}
