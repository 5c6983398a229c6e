use gl_types::{to_return_suffix, to_rust_ty, TypeTable, STANDARD_ENTRIES};

#[test]
fn nothing_stands_behind_a_function_that_returns_nothing() {
    assert_eq!(to_return_suffix("GLvoid"), "");
    assert_eq!(to_return_suffix("VOID"), "");
    assert_eq!(to_return_suffix("c_void"), "");
}

#[test]
fn only_the_three_names_stand_for_nothing() {
    assert_eq!(to_return_suffix("void "), " -> ::libc::c_void");
    assert_eq!(to_return_suffix("void"), " -> void");
    assert_eq!(to_return_suffix("Void"), " -> Void");
    assert_eq!(to_return_suffix("GLvoid "), " -> GLvoid ");
    assert_eq!(to_return_suffix("::libc::c_void"), " -> ::libc::c_void");
    assert_eq!(to_return_suffix(""), " -> ");
}

#[test]
fn a_pointer_returned_is_a_pointer_to_read_through() {
    assert_eq!(to_rust_ty("GLuint *").unwrap(), "*mut GLuint");
    assert_eq!(to_return_suffix("GLuint *"), " -> *const GLuint");
}

#[test]
fn scalar_is_mapped_and_put_behind_the_arrow() {
    assert_eq!(to_return_suffix("GLuint"), " -> GLuint");
    assert_eq!(to_return_suffix("int "), " -> ::libc::c_int");
    assert_eq!(to_return_suffix("int64_t"), " -> i64");
    assert_eq!(to_return_suffix("HDC"), " -> HDC");
}

#[test]
fn pointers_of_the_table() {
    assert_eq!(to_return_suffix("const GLubyte *"), " -> *const GLubyte");
    assert_eq!(to_return_suffix("void *"), " -> *const ::libc::c_void");
    assert_eq!(to_return_suffix("GLvoid **"), " -> *const *const GLvoid");
    assert_eq!(to_return_suffix("void **"), " -> *const *const ::libc::c_void");
    assert_eq!(to_return_suffix("const GLchar *const*"), " -> *const *const GLchar");
}

#[test]
fn mapped_text_is_taken_as_it_is() {
    assert_eq!(to_return_suffix("*mut GLuint"), " -> *const GLuint");
    assert_eq!(to_return_suffix("*const GLubyte"), " -> *const GLubyte");
    assert_eq!(to_return_suffix("*const *mut GLvoid"), " -> *const *const GLvoid");
    assert_eq!(to_return_suffix("*mut *mut T"), " -> *const *const T");
    assert_eq!(to_return_suffix("__GLXextFuncPtr"), " -> __GLXextFuncPtr");
}

#[test]
fn suffix_of_a_target_is_that_of_its_spelling() {
    for (spelling, target) in STANDARD_ENTRIES {
        assert_eq!(to_rust_ty(spelling).unwrap(), target);
        assert_eq!(to_return_suffix(target), to_return_suffix(spelling), "for {:?}", spelling);
    }
}

#[test]
fn the_mark_needs_its_blank() {
    assert_eq!(to_return_suffix("*mut"), " -> *mut");
    assert_eq!(to_return_suffix("*mutable"), " -> *mutable");
    assert_eq!(to_return_suffix("* mut T"), " -> * mut T");
}

#[test]
fn no_suffix_holds_the_mark_of_a_pointer_to_write_through() {
    let table = TypeTable::standard();
    for (spelling, _) in STANDARD_ENTRIES {
        assert!(!table.return_suffix(spelling).contains("*mut "), "for {:?}", spelling);
    }
    assert!(!to_return_suffix("**mut *mut *mut ").contains("*mut "));
}

#[test]
fn suffix_by_a_table_of_one_s_own() {
    let table = TypeTable::build(vec![("handle", "*mut Handle"), ("none", "VOID")]).unwrap();
    assert_eq!(table.return_suffix("handle"), " -> *const Handle");
    // The spelling decides whether nothing is returned, not its target.
    assert_eq!(table.return_suffix("none"), " -> VOID");
    assert_eq!(table.return_suffix("VOID"), "");
    assert_eq!(table.return_suffix("GLuint *"), " -> GLuint *");
}

#[test]
fn suffix_is_repeatable() {
    assert_eq!(to_return_suffix("GLfloat *"), to_return_suffix("GLfloat *"));
}
