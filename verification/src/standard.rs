//! The standard table: the types that the OpenGL, GLX and WGL registries use.

use crate::order::{
    ascending, ascending_between, lemma_ascending_between, lemma_ascending_distinct,
    lemma_ascending_excludes_after, lemma_ascending_excludes_before,
    lemma_ascending_excludes_between, precedes, precedes_from,
};
use crate::suffix::is_void;
use crate::table::{
    distinct_spellings, lemma_entry_in_table, lemma_unlisted_not_in_table, listed_at, pairs_of,
    table_of, Entry, TypeTable,
};
use vstd::prelude::*;

verus! {

/// The entries of the standard table, in dictionary order of their spellings.
///
/// A scalar type that a registry writes with a blank behind it has the blank
/// here too; a pointer is spelled with one blank before its first `*` and
/// none after it.
pub const STANDARD_ENTRIES: [Entry; 178] = [
    ("BOOL", "BOOL"),
    ("BOOL *", "*mut BOOL"),
    ("Bool", "Bool"),
    ("Colormap", "Colormap"),
    ("DMbuffer", "DMbuffer"),
    ("DMparams *", "*mut DMparams"),
    ("DWORD", "DWORD"),
    ("DWORD *", "*mut DWORD"),
    ("Display *", "*mut Display"),
    ("FLOAT", "FLOAT"),
    ("FLOAT *", "*mut FLOAT"),
    ("Font", "Font"),
    ("GLDEBUGPROC", "GLDEBUGPROC"),
    ("GLDEBUGPROCAMD", "GLDEBUGPROCAMD"),
    ("GLDEBUGPROCARB", "GLDEBUGPROCARB"),
    ("GLDEBUGPROCKHR", "GLDEBUGPROCKHR"),
    ("GLXContext", "GLXContext"),
    ("GLXContextID", "GLXContextID"),
    ("GLXDrawable", "GLXDrawable"),
    ("GLXFBConfig", "GLXFBConfig"),
    ("GLXFBConfig *", "*mut GLXFBConfig"),
    ("GLXFBConfigSGIX", "GLXFBConfigSGIX"),
    ("GLXFBConfigSGIX *", "*mut GLXFBConfigSGIX"),
    ("GLXHyperpipeConfigSGIX *", "*mut GLXHyperpipeConfigSGIX"),
    ("GLXHyperpipeNetworkSGIX *", "*mut GLXHyperpipeNetworkSGIX"),
    ("GLXPbuffer", "GLXPbuffer"),
    ("GLXPbufferSGIX", "GLXPbufferSGIX"),
    ("GLXPixmap", "GLXPixmap"),
    ("GLXVideoCaptureDeviceNV", "GLXVideoCaptureDeviceNV"),
    ("GLXVideoCaptureDeviceNV *", "*mut GLXVideoCaptureDeviceNV"),
    ("GLXVideoDeviceNV", "GLXVideoDeviceNV"),
    ("GLXVideoDeviceNV *", "*mut GLXVideoDeviceNV"),
    ("GLXVideoSourceSGIX", "GLXVideoSourceSGIX"),
    ("GLXWindow", "GLXWindow"),
    ("GLbitfield", "GLbitfield"),
    ("GLboolean", "GLboolean"),
    ("GLboolean *", "*mut GLboolean"),
    ("GLbyte", "GLbyte"),
    ("GLchar *", "*mut GLchar"),
    ("GLcharARB *", "*mut GLcharARB"),
    ("GLclampd", "GLclampd"),
    ("GLclampf", "GLclampf"),
    ("GLclampx", "GLclampx"),
    ("GLdouble", "GLdouble"),
    ("GLdouble *", "*mut GLdouble"),
    ("GLeglImageOES", "GLeglImageOES"),
    ("GLenum", "GLenum"),
    ("GLenum *", "*mut GLenum"),
    ("GLfixed", "GLfixed"),
    ("GLfixed *", "*mut GLfixed"),
    ("GLfloat", "GLfloat"),
    ("GLfloat *", "*mut GLfloat"),
    ("GLhalfNV", "GLhalfNV"),
    ("GLhandleARB", "GLhandleARB"),
    ("GLhandleARB *", "*mut GLhandleARB"),
    ("GLint", "GLint"),
    ("GLint *", "*mut GLint"),
    ("GLint64 *", "*mut GLint64"),
    ("GLint64EXT", "GLint64EXT"),
    ("GLint64EXT *", "*mut GLint64EXT"),
    ("GLintptr", "GLintptr"),
    ("GLintptrARB", "GLintptrARB"),
    ("GLshort", "GLshort"),
    ("GLsizei", "GLsizei"),
    ("GLsizei *", "*mut GLsizei"),
    ("GLsizeiptr", "GLsizeiptr"),
    ("GLsizeiptrARB", "GLsizeiptrARB"),
    ("GLsync", "GLsync"),
    ("GLubyte", "GLubyte"),
    ("GLubyte *", "*mut GLubyte"),
    ("GLuint", "GLuint"),
    ("GLuint *", "*mut GLuint"),
    ("GLuint64", "GLuint64"),
    ("GLuint64 *", "*mut GLuint64"),
    ("GLuint64EXT", "GLuint64EXT"),
    ("GLuint64EXT *", "*mut GLuint64EXT"),
    ("GLushort", "GLushort"),
    ("GLushort *", "*mut GLushort"),
    ("GLvdpauSurfaceNV", "GLvdpauSurfaceNV"),
    ("GLvoid *", "*mut GLvoid"),
    ("GLvoid **", "*const *mut GLvoid"),
    ("HANDLE", "HANDLE"),
    ("HANDLE *", "*mut HANDLE"),
    ("HDC", "HDC"),
    ("HENHMETAFILE", "HENHMETAFILE"),
    ("HGLRC", "HGLRC"),
    ("HGPUNV", "HGPUNV"),
    ("HGPUNV *", "*mut HGPUNV"),
    ("HPBUFFERARB", "HPBUFFERARB"),
    ("HPBUFFEREXT", "HPBUFFEREXT"),
    ("HPVIDEODEV", "HPVIDEODEV"),
    ("HPVIDEODEV *", "*mut HPVIDEODEV"),
    ("HVIDEOINPUTDEVICENV", "HVIDEOINPUTDEVICENV"),
    ("HVIDEOINPUTDEVICENV *", "*mut HVIDEOINPUTDEVICENV"),
    ("HVIDEOOUTPUTDEVICENV", "HVIDEOOUTPUTDEVICENV"),
    ("HVIDEOOUTPUTDEVICENV *", "*mut HVIDEOOUTPUTDEVICENV"),
    ("INT", "INT"),
    ("INT32 *", "*mut INT32"),
    ("INT64", "INT64"),
    ("INT64 *", "*mut INT64"),
    ("LPCSTR", "LPCSTR"),
    ("LPGLYPHMETRICSFLOAT", "LPGLYPHMETRICSFLOAT"),
    ("LPVOID", "LPVOID"),
    ("PGPU_DEVICE", "PGPU_DEVICE"),
    ("PROC", "PROC"),
    ("Pixmap", "Pixmap"),
    ("Status", "Status"),
    ("UINT", "UINT"),
    ("UINT *", "*mut UINT"),
    ("USHORT *", "*mut USHORT"),
    ("VLNode", "VLNode"),
    ("VLPath", "VLPath"),
    ("VLServer", "VLServer"),
    ("VOID", "VOID"),
    ("Window", "Window"),
    ("XVisualInfo *", "*mut XVisualInfo"),
    ("__GLXextFuncPtr", "__GLXextFuncPtr"),
    ("const COLORREF *", "*const COLORREF"),
    ("const DWORD *", "*const DWORD"),
    ("const FLOAT *", "*const FLOAT"),
    ("const GLXContext", "const GLXContext"),
    ("const GLboolean *", "*const GLboolean"),
    ("const GLboolean **", "*const *const GLboolean"),
    ("const GLbyte *", "*const GLbyte"),
    ("const GLchar *", "*const GLchar"),
    ("const GLchar **", "*const *const GLchar"),
    ("const GLchar *const*", "*const *const GLchar"),
    ("const GLcharARB *", "*const GLcharARB"),
    ("const GLcharARB **", "*const *const GLcharARB"),
    ("const GLclampf *", "*const GLclampf"),
    ("const GLdouble *", "*const GLdouble"),
    ("const GLenum *", "*const GLenum"),
    ("const GLfixed *", "*const GLfixed"),
    ("const GLfloat *", "*const GLfloat"),
    ("const GLhalfNV *", "*const GLhalfNV"),
    ("const GLint *", "*const GLint"),
    ("const GLint64EXT *", "*const GLint64EXT"),
    ("const GLintptr *", "*const GLintptr"),
    ("const GLshort *", "*const GLshort"),
    ("const GLsizei *", "*const GLsizei"),
    ("const GLsizeiptr *", "*const GLsizeiptr"),
    ("const GLubyte *", "*const GLubyte"),
    ("const GLuint *", "*const GLuint"),
    ("const GLuint64 *", "*const GLuint64"),
    ("const GLuint64EXT *", "*const GLuint64EXT"),
    ("const GLushort *", "*const GLushort"),
    ("const GLvdpauSurfaceNV *", "*const GLvdpauSurfaceNV"),
    ("const GLvoid *", "*const GLvoid"),
    ("const GLvoid **", "*const *const GLvoid"),
    ("const GLvoid *const*", "*const *const GLvoid"),
    ("const HANDLE *", "*const HANDLE"),
    ("const HGPUNV *", "*const HGPUNV"),
    ("const LAYERPLANEDESCRIPTOR *", "*const LAYERPLANEDESCRIPTOR"),
    ("const LPVOID *", "*const LPVOID"),
    ("const PIXELFORMATDESCRIPTOR *", "*const PIXELFORMATDESCRIPTOR"),
    ("const USHORT *", "*const USHORT"),
    ("const char *", "*const ::libc::c_char"),
    ("const int *", "*const ::libc::c_int"),
    ("const void *", "*const ::libc::c_void"),
    ("const void **", "*const *const ::libc::c_void"),
    ("const void *const*", "*const *const ::libc::c_void"),
    ("float ", "::libc::c_float"),
    ("float *", "*mut ::libc::c_float"),
    ("int ", "::libc::c_int"),
    ("int *", "*mut ::libc::c_int"),
    ("int32_t *", "*mut i32"),
    ("int64_t", "i64"),
    ("int64_t *", "*mut i64"),
    ("long *", "*mut ::libc::c_long"),
    ("struct _cl_context *", "*const _cl_context"),
    ("struct _cl_event *", "*const _cl_event"),
    ("unsigned int ", "::libc::c_uint"),
    ("unsigned int *", "*mut ::libc::c_uint"),
    ("unsigned long ", "::libc::c_ulong"),
    ("unsigned long *", "*mut ::libc::c_ulong"),
    ("void ", "::libc::c_void"),
    ("void *", "*mut ::libc::c_void"),
    ("void **", "*const *mut ::libc::c_void"),
];

/// The entries of the standard table as pairs of texts.
pub open spec fn standard_pairs() -> Seq<(Seq<char>, Seq<char>)> {
    pairs_of(STANDARD_ENTRIES@)
}

/// The spellings of the standard table, in the order of its entries.
pub open spec fn standard_spellings() -> Seq<Seq<char>> {
    Seq::new(STANDARD_ENTRIES@.len(), |i: int| STANDARD_ENTRIES@[i].0@)
}

/// The mapping that the standard table describes.
pub open spec fn standard_table() -> Map<Seq<char>, Seq<char>> {
    table_of(standard_pairs())
}

// That the spellings stand in dictionary order is checked by unfolding, in
// six stretches, each of them small enough to be taken at once.

// The first stretch.
proof fn lemma_ascending_first()
    ensures
        forall|i: int|
            0 <= i < 30 ==> precedes(
                #[trigger] standard_spellings()[i],
                standard_spellings()[i + 1],
            ),
{
    reveal_strlit("BOOL");
    reveal_strlit("BOOL *");
    reveal_strlit("Bool");
    reveal_strlit("Colormap");
    reveal_strlit("DMbuffer");
    reveal_strlit("DMparams *");
    reveal_strlit("DWORD");
    reveal_strlit("DWORD *");
    reveal_strlit("Display *");
    reveal_strlit("FLOAT");
    reveal_strlit("FLOAT *");
    reveal_strlit("Font");
    reveal_strlit("GLDEBUGPROC");
    reveal_strlit("GLDEBUGPROCAMD");
    reveal_strlit("GLDEBUGPROCARB");
    reveal_strlit("GLDEBUGPROCKHR");
    reveal_strlit("GLXContext");
    reveal_strlit("GLXContextID");
    reveal_strlit("GLXDrawable");
    reveal_strlit("GLXFBConfig");
    reveal_strlit("GLXFBConfig *");
    reveal_strlit("GLXFBConfigSGIX");
    reveal_strlit("GLXFBConfigSGIX *");
    reveal_strlit("GLXHyperpipeConfigSGIX *");
    reveal_strlit("GLXHyperpipeNetworkSGIX *");
    reveal_strlit("GLXPbuffer");
    reveal_strlit("GLXPbufferSGIX");
    reveal_strlit("GLXPixmap");
    reveal_strlit("GLXVideoCaptureDeviceNV");
    reveal_strlit("GLXVideoCaptureDeviceNV *");
    reveal_strlit("GLXVideoDeviceNV");
    reveal_with_fuel(precedes_from, 25);
    reveal_with_fuel(ascending_between, 31);
    lemma_ascending_between(standard_spellings(), 0, 30);
}

// The second stretch.
proof fn lemma_ascending_second()
    ensures
        forall|i: int|
            30 <= i < 60 ==> precedes(
                #[trigger] standard_spellings()[i],
                standard_spellings()[i + 1],
            ),
{
    reveal_strlit("GLXVideoDeviceNV");
    reveal_strlit("GLXVideoDeviceNV *");
    reveal_strlit("GLXVideoSourceSGIX");
    reveal_strlit("GLXWindow");
    reveal_strlit("GLbitfield");
    reveal_strlit("GLboolean");
    reveal_strlit("GLboolean *");
    reveal_strlit("GLbyte");
    reveal_strlit("GLchar *");
    reveal_strlit("GLcharARB *");
    reveal_strlit("GLclampd");
    reveal_strlit("GLclampf");
    reveal_strlit("GLclampx");
    reveal_strlit("GLdouble");
    reveal_strlit("GLdouble *");
    reveal_strlit("GLeglImageOES");
    reveal_strlit("GLenum");
    reveal_strlit("GLenum *");
    reveal_strlit("GLfixed");
    reveal_strlit("GLfixed *");
    reveal_strlit("GLfloat");
    reveal_strlit("GLfloat *");
    reveal_strlit("GLhalfNV");
    reveal_strlit("GLhandleARB");
    reveal_strlit("GLhandleARB *");
    reveal_strlit("GLint");
    reveal_strlit("GLint *");
    reveal_strlit("GLint64 *");
    reveal_strlit("GLint64EXT");
    reveal_strlit("GLint64EXT *");
    reveal_strlit("GLintptr");
    reveal_with_fuel(precedes_from, 25);
    reveal_with_fuel(ascending_between, 31);
    lemma_ascending_between(standard_spellings(), 30, 60);
}

// The third stretch.
proof fn lemma_ascending_third()
    ensures
        forall|i: int|
            60 <= i < 90 ==> precedes(
                #[trigger] standard_spellings()[i],
                standard_spellings()[i + 1],
            ),
{
    reveal_strlit("GLintptr");
    reveal_strlit("GLintptrARB");
    reveal_strlit("GLshort");
    reveal_strlit("GLsizei");
    reveal_strlit("GLsizei *");
    reveal_strlit("GLsizeiptr");
    reveal_strlit("GLsizeiptrARB");
    reveal_strlit("GLsync");
    reveal_strlit("GLubyte");
    reveal_strlit("GLubyte *");
    reveal_strlit("GLuint");
    reveal_strlit("GLuint *");
    reveal_strlit("GLuint64");
    reveal_strlit("GLuint64 *");
    reveal_strlit("GLuint64EXT");
    reveal_strlit("GLuint64EXT *");
    reveal_strlit("GLushort");
    reveal_strlit("GLushort *");
    reveal_strlit("GLvdpauSurfaceNV");
    reveal_strlit("GLvoid *");
    reveal_strlit("GLvoid **");
    reveal_strlit("HANDLE");
    reveal_strlit("HANDLE *");
    reveal_strlit("HDC");
    reveal_strlit("HENHMETAFILE");
    reveal_strlit("HGLRC");
    reveal_strlit("HGPUNV");
    reveal_strlit("HGPUNV *");
    reveal_strlit("HPBUFFERARB");
    reveal_strlit("HPBUFFEREXT");
    reveal_strlit("HPVIDEODEV");
    reveal_with_fuel(precedes_from, 25);
    reveal_with_fuel(ascending_between, 31);
    lemma_ascending_between(standard_spellings(), 60, 90);
}

// The fourth stretch.
proof fn lemma_ascending_fourth()
    ensures
        forall|i: int|
            90 <= i < 120 ==> precedes(
                #[trigger] standard_spellings()[i],
                standard_spellings()[i + 1],
            ),
{
    reveal_strlit("HPVIDEODEV");
    reveal_strlit("HPVIDEODEV *");
    reveal_strlit("HVIDEOINPUTDEVICENV");
    reveal_strlit("HVIDEOINPUTDEVICENV *");
    reveal_strlit("HVIDEOOUTPUTDEVICENV");
    reveal_strlit("HVIDEOOUTPUTDEVICENV *");
    reveal_strlit("INT");
    reveal_strlit("INT32 *");
    reveal_strlit("INT64");
    reveal_strlit("INT64 *");
    reveal_strlit("LPCSTR");
    reveal_strlit("LPGLYPHMETRICSFLOAT");
    reveal_strlit("LPVOID");
    reveal_strlit("PGPU_DEVICE");
    reveal_strlit("PROC");
    reveal_strlit("Pixmap");
    reveal_strlit("Status");
    reveal_strlit("UINT");
    reveal_strlit("UINT *");
    reveal_strlit("USHORT *");
    reveal_strlit("VLNode");
    reveal_strlit("VLPath");
    reveal_strlit("VLServer");
    reveal_strlit("VOID");
    reveal_strlit("Window");
    reveal_strlit("XVisualInfo *");
    reveal_strlit("__GLXextFuncPtr");
    reveal_strlit("const COLORREF *");
    reveal_strlit("const DWORD *");
    reveal_strlit("const FLOAT *");
    reveal_strlit("const GLXContext");
    reveal_with_fuel(precedes_from, 25);
    reveal_with_fuel(ascending_between, 31);
    lemma_ascending_between(standard_spellings(), 90, 120);
}

// The fifth stretch.
proof fn lemma_ascending_fifth()
    ensures
        forall|i: int|
            120 <= i < 150 ==> precedes(
                #[trigger] standard_spellings()[i],
                standard_spellings()[i + 1],
            ),
{
    reveal_strlit("const GLXContext");
    reveal_strlit("const GLboolean *");
    reveal_strlit("const GLboolean **");
    reveal_strlit("const GLbyte *");
    reveal_strlit("const GLchar *");
    reveal_strlit("const GLchar **");
    reveal_strlit("const GLchar *const*");
    reveal_strlit("const GLcharARB *");
    reveal_strlit("const GLcharARB **");
    reveal_strlit("const GLclampf *");
    reveal_strlit("const GLdouble *");
    reveal_strlit("const GLenum *");
    reveal_strlit("const GLfixed *");
    reveal_strlit("const GLfloat *");
    reveal_strlit("const GLhalfNV *");
    reveal_strlit("const GLint *");
    reveal_strlit("const GLint64EXT *");
    reveal_strlit("const GLintptr *");
    reveal_strlit("const GLshort *");
    reveal_strlit("const GLsizei *");
    reveal_strlit("const GLsizeiptr *");
    reveal_strlit("const GLubyte *");
    reveal_strlit("const GLuint *");
    reveal_strlit("const GLuint64 *");
    reveal_strlit("const GLuint64EXT *");
    reveal_strlit("const GLushort *");
    reveal_strlit("const GLvdpauSurfaceNV *");
    reveal_strlit("const GLvoid *");
    reveal_strlit("const GLvoid **");
    reveal_strlit("const GLvoid *const*");
    reveal_strlit("const HANDLE *");
    reveal_with_fuel(precedes_from, 25);
    reveal_with_fuel(ascending_between, 31);
    lemma_ascending_between(standard_spellings(), 120, 150);
}

// The sixth stretch.
proof fn lemma_ascending_sixth()
    ensures
        forall|i: int|
            150 <= i < 177 ==> precedes(
                #[trigger] standard_spellings()[i],
                standard_spellings()[i + 1],
            ),
{
    reveal_strlit("const HANDLE *");
    reveal_strlit("const HGPUNV *");
    reveal_strlit("const LAYERPLANEDESCRIPTOR *");
    reveal_strlit("const LPVOID *");
    reveal_strlit("const PIXELFORMATDESCRIPTOR *");
    reveal_strlit("const USHORT *");
    reveal_strlit("const char *");
    reveal_strlit("const int *");
    reveal_strlit("const void *");
    reveal_strlit("const void **");
    reveal_strlit("const void *const*");
    reveal_strlit("float ");
    reveal_strlit("float *");
    reveal_strlit("int ");
    reveal_strlit("int *");
    reveal_strlit("int32_t *");
    reveal_strlit("int64_t");
    reveal_strlit("int64_t *");
    reveal_strlit("long *");
    reveal_strlit("struct _cl_context *");
    reveal_strlit("struct _cl_event *");
    reveal_strlit("unsigned int ");
    reveal_strlit("unsigned int *");
    reveal_strlit("unsigned long ");
    reveal_strlit("unsigned long *");
    reveal_strlit("void ");
    reveal_strlit("void *");
    reveal_strlit("void **");
    reveal_with_fuel(precedes_from, 25);
    reveal_with_fuel(ascending_between, 28);
    lemma_ascending_between(standard_spellings(), 150, 177);
}

/// The spellings of the standard table stand in dictionary order.
pub proof fn lemma_standard_ascending()
    ensures
        ascending(standard_spellings()),
{
    lemma_ascending_first();
    lemma_ascending_second();
    lemma_ascending_third();
    lemma_ascending_fourth();
    lemma_ascending_fifth();
    lemma_ascending_sixth();
}

/// No spelling stands in the standard table twice.
pub proof fn lemma_standard_distinct()
    ensures
        distinct_spellings(standard_pairs()),
{
    lemma_standard_ascending();
    lemma_ascending_distinct(standard_spellings());
    let pairs = standard_pairs();
    assert forall|at: int, before: int| 0 <= before < at < pairs.len() implies !listed_at(
        pairs,
        pairs[at].0,
        before,
    ) by {
        assert(standard_spellings()[before] != standard_spellings()[at]);
    }
}

/// Each entry of the standard table is in the mapping that the table
/// describes: its spelling is mapped, and mapped to its target.
pub proof fn lemma_standard_entry(at: int)
    requires
        0 <= at < STANDARD_ENTRIES@.len(),
    ensures
        standard_table().contains_key(STANDARD_ENTRIES@[at].0@),
        standard_table()[STANDARD_ENTRIES@[at].0@] == STANDARD_ENTRIES@[at].1@,
{
    lemma_standard_distinct();
    lemma_entry_in_table(standard_pairs(), at);
}

/// The place of `text` in the order shows that it is no spelling of the
/// standard table: it comes before the first spelling, after the last, or
/// between two neighbours.
pub open spec fn out_of_line(text: Seq<char>) -> bool {
    let spellings = standard_spellings();
    ||| precedes(text, spellings[0])
    ||| precedes(spellings[spellings.len() - 1], text)
    ||| exists|at: int|
        0 <= at < spellings.len() - 1 && #[trigger] precedes(spellings[at], text) && precedes(
            text,
            spellings[at + 1],
        )
}

/// A text that is out of line is not mapped by the standard table.
pub proof fn lemma_out_of_line_unlisted(text: Seq<char>)
    requires
        out_of_line(text),
    ensures
        !standard_table().contains_key(text),
{
    let spellings = standard_spellings();
    lemma_standard_ascending();
    if precedes(text, spellings[0]) {
        lemma_ascending_excludes_before(spellings, text);
    } else if precedes(spellings[spellings.len() - 1], text) {
        lemma_ascending_excludes_after(spellings, text);
    } else {
        let at = choose|at: int|
            0 <= at < spellings.len() - 1 && #[trigger] precedes(spellings[at], text) && precedes(
                text,
                spellings[at + 1],
            );
        lemma_ascending_excludes_between(spellings, at, text);
    }
    assert forall|at: int| 0 <= at < standard_pairs().len() implies standard_pairs()[at].0
        != text by {
        assert(spellings[at] != text);
    }
    lemma_unlisted_not_in_table(standard_pairs(), text);
}

/// The target at position `at` is the spelling that it stands with, or it
/// is out of line and no name for the type of a function that returns
/// nothing.
pub open spec fn target_settled(at: int) -> bool {
    let (spelling, target) = standard_pairs()[at];
    target == spelling || (out_of_line(target) && !is_void(target))
}

// The targets at the positions from `from` up to `to`, without `to`, are
// settled: said position by position, to be checked by unfolding.
spec fn targets_settled_between(from: int, to: int) -> bool
    decreases to - from,
{
    from >= to || (target_settled(from) && targets_settled_between(from + 1, to))
}

// What was said position by position holds of every position.
proof fn lemma_settled_between(from: int, to: int)
    requires
        targets_settled_between(from, to),
    ensures
        forall|at: int| from <= at < to ==> target_settled(at),
    decreases to - from,
{
    if from < to {
        lemma_settled_between(from + 1, to);
    }
}

// That the targets are settled is checked in six stretches too. A target that
// is not its own spelling begins with `*` or `:` and so comes before the
// first spelling, which begins with a letter; only `i64` has its place
// between two spellings.

// The first stretch.
proof fn lemma_settled_first()
    ensures
        forall|at: int| 0 <= at < 30 ==> target_settled(at),
{
    reveal_strlit("BOOL");
    reveal_strlit("*mut BOOL");
    reveal_strlit("*mut DMparams");
    reveal_strlit("*mut DWORD");
    reveal_strlit("*mut Display");
    reveal_strlit("*mut FLOAT");
    reveal_strlit("*mut GLXFBConfig");
    reveal_strlit("*mut GLXFBConfigSGIX");
    reveal_strlit("*mut GLXHyperpipeConfigSGIX");
    reveal_strlit("*mut GLXHyperpipeNetworkSGIX");
    reveal_strlit("*mut GLXVideoCaptureDeviceNV");
    reveal_strlit("c_void");
    reveal_strlit("VOID");
    reveal_strlit("GLvoid");
    assert("c_void"@[0] == 'c' && "VOID"@[0] == 'V' && "GLvoid"@[0] == 'G');
    reveal_with_fuel(precedes_from, 4);
    reveal_with_fuel(targets_settled_between, 31);
    lemma_settled_between(0, 30);
}

// The second stretch.
proof fn lemma_settled_second()
    ensures
        forall|at: int| 30 <= at < 60 ==> target_settled(at),
{
    reveal_strlit("BOOL");
    reveal_strlit("*mut GLXVideoDeviceNV");
    reveal_strlit("*mut GLboolean");
    reveal_strlit("*mut GLchar");
    reveal_strlit("*mut GLcharARB");
    reveal_strlit("*mut GLdouble");
    reveal_strlit("*mut GLenum");
    reveal_strlit("*mut GLfixed");
    reveal_strlit("*mut GLfloat");
    reveal_strlit("*mut GLhandleARB");
    reveal_strlit("*mut GLint");
    reveal_strlit("*mut GLint64");
    reveal_strlit("*mut GLint64EXT");
    reveal_strlit("c_void");
    reveal_strlit("VOID");
    reveal_strlit("GLvoid");
    assert("c_void"@[0] == 'c' && "VOID"@[0] == 'V' && "GLvoid"@[0] == 'G');
    reveal_with_fuel(precedes_from, 4);
    reveal_with_fuel(targets_settled_between, 31);
    lemma_settled_between(30, 60);
}

// The third stretch.
proof fn lemma_settled_third()
    ensures
        forall|at: int| 60 <= at < 90 ==> target_settled(at),
{
    reveal_strlit("BOOL");
    reveal_strlit("*mut GLsizei");
    reveal_strlit("*mut GLubyte");
    reveal_strlit("*mut GLuint");
    reveal_strlit("*mut GLuint64");
    reveal_strlit("*mut GLuint64EXT");
    reveal_strlit("*mut GLushort");
    reveal_strlit("*mut GLvoid");
    reveal_strlit("*const *mut GLvoid");
    reveal_strlit("*mut HANDLE");
    reveal_strlit("*mut HGPUNV");
    reveal_strlit("c_void");
    reveal_strlit("VOID");
    reveal_strlit("GLvoid");
    assert("c_void"@[0] == 'c' && "VOID"@[0] == 'V' && "GLvoid"@[0] == 'G');
    reveal_with_fuel(precedes_from, 4);
    reveal_with_fuel(targets_settled_between, 31);
    lemma_settled_between(60, 90);
}

// The fourth stretch.
proof fn lemma_settled_fourth()
    ensures
        forall|at: int| 90 <= at < 120 ==> target_settled(at),
{
    reveal_strlit("BOOL");
    reveal_strlit("*mut HPVIDEODEV");
    reveal_strlit("*mut HVIDEOINPUTDEVICENV");
    reveal_strlit("*mut HVIDEOOUTPUTDEVICENV");
    reveal_strlit("*mut INT32");
    reveal_strlit("*mut INT64");
    reveal_strlit("*mut UINT");
    reveal_strlit("*mut USHORT");
    reveal_strlit("*mut XVisualInfo");
    reveal_strlit("*const COLORREF");
    reveal_strlit("*const DWORD");
    reveal_strlit("*const FLOAT");
    reveal_strlit("c_void");
    reveal_strlit("VOID");
    reveal_strlit("GLvoid");
    assert("c_void"@[0] == 'c' && "VOID"@[0] == 'V' && "GLvoid"@[0] == 'G');
    reveal_with_fuel(precedes_from, 4);
    reveal_with_fuel(targets_settled_between, 31);
    lemma_settled_between(90, 120);
}

// The fifth stretch.
proof fn lemma_settled_fifth()
    ensures
        forall|at: int| 120 <= at < 150 ==> target_settled(at),
{
    reveal_strlit("BOOL");
    reveal_strlit("*const GLboolean");
    reveal_strlit("*const *const GLboolean");
    reveal_strlit("*const GLbyte");
    reveal_strlit("*const GLchar");
    reveal_strlit("*const *const GLchar");
    reveal_strlit("*const GLcharARB");
    reveal_strlit("*const *const GLcharARB");
    reveal_strlit("*const GLclampf");
    reveal_strlit("*const GLdouble");
    reveal_strlit("*const GLenum");
    reveal_strlit("*const GLfixed");
    reveal_strlit("*const GLfloat");
    reveal_strlit("*const GLhalfNV");
    reveal_strlit("*const GLint");
    reveal_strlit("*const GLint64EXT");
    reveal_strlit("*const GLintptr");
    reveal_strlit("*const GLshort");
    reveal_strlit("*const GLsizei");
    reveal_strlit("*const GLsizeiptr");
    reveal_strlit("*const GLubyte");
    reveal_strlit("*const GLuint");
    reveal_strlit("*const GLuint64");
    reveal_strlit("*const GLuint64EXT");
    reveal_strlit("*const GLushort");
    reveal_strlit("*const GLvdpauSurfaceNV");
    reveal_strlit("*const GLvoid");
    reveal_strlit("*const *const GLvoid");
    reveal_strlit("c_void");
    reveal_strlit("VOID");
    reveal_strlit("GLvoid");
    assert("c_void"@[0] == 'c' && "VOID"@[0] == 'V' && "GLvoid"@[0] == 'G');
    reveal_with_fuel(precedes_from, 4);
    reveal_with_fuel(targets_settled_between, 31);
    lemma_settled_between(120, 150);
}

// The sixth stretch.
proof fn lemma_settled_sixth()
    ensures
        forall|at: int| 150 <= at < 178 ==> target_settled(at),
{
    reveal_strlit("BOOL");
    reveal_strlit("*const HANDLE");
    reveal_strlit("*const HGPUNV");
    reveal_strlit("*const LAYERPLANEDESCRIPTOR");
    reveal_strlit("*const LPVOID");
    reveal_strlit("*const PIXELFORMATDESCRIPTOR");
    reveal_strlit("*const USHORT");
    reveal_strlit("*const ::libc::c_char");
    reveal_strlit("*const ::libc::c_int");
    reveal_strlit("*const ::libc::c_void");
    reveal_strlit("*const *const ::libc::c_void");
    reveal_strlit("::libc::c_float");
    reveal_strlit("*mut ::libc::c_float");
    reveal_strlit("::libc::c_int");
    reveal_strlit("*mut ::libc::c_int");
    reveal_strlit("*mut i32");
    reveal_strlit("i64");
    reveal_strlit("*mut i64");
    reveal_strlit("*mut ::libc::c_long");
    reveal_strlit("*const _cl_context");
    reveal_strlit("*const _cl_event");
    reveal_strlit("::libc::c_uint");
    reveal_strlit("*mut ::libc::c_uint");
    reveal_strlit("::libc::c_ulong");
    reveal_strlit("*mut ::libc::c_ulong");
    reveal_strlit("::libc::c_void");
    reveal_strlit("*mut ::libc::c_void");
    reveal_strlit("*const *mut ::libc::c_void");
    reveal_strlit("c_void");
    reveal_strlit("VOID");
    reveal_strlit("GLvoid");
    assert("c_void"@[0] == 'c' && "VOID"@[0] == 'V' && "GLvoid"@[0] == 'G');
    reveal_with_fuel(precedes_from, 4);
    reveal_strlit("float *");
    reveal_strlit("int ");
    assert(
        precedes(standard_spellings()[162], "i64"@) && precedes("i64"@, standard_spellings()[163])
    );
    reveal_with_fuel(targets_settled_between, 29);
    lemma_settled_between(150, 178);
}

/// A target of the standard table is the spelling that it stands with, or
/// it is no spelling of the table, and no name for the type of a function
/// that returns nothing either. So what was mapped once can be taken for a
/// spelling again, and stays as it is.
pub proof fn lemma_standard_target_settled(at: int)
    requires
        0 <= at < STANDARD_ENTRIES@.len(),
    ensures
        STANDARD_ENTRIES@[at].1@ == STANDARD_ENTRIES@[at].0@ || (!standard_table().contains_key(
            STANDARD_ENTRIES@[at].1@,
        ) && !is_void(STANDARD_ENTRIES@[at].1@)),
{
    lemma_settled_first();
    lemma_settled_second();
    lemma_settled_third();
    lemma_settled_fourth();
    lemma_settled_fifth();
    lemma_settled_sixth();
    assert(target_settled(at));
    if out_of_line(STANDARD_ENTRIES@[at].1@) {
        lemma_out_of_line_unlisted(STANDARD_ENTRIES@[at].1@);
    }
}

/// Of the names for the type of a function that returns nothing, the
/// standard table maps none to anything but itself.
pub proof fn lemma_standard_void_settled(spelling: Seq<char>)
    requires
        is_void(spelling),
        standard_table().contains_key(spelling),
    ensures
        standard_table()[spelling] == spelling,
{
    let spellings = standard_spellings();
    reveal_with_fuel(precedes_from, 8);
    if spelling == "VOID"@ {
        lemma_standard_entry(113);
    } else if spelling == "GLvoid"@ {
        reveal_strlit("GLvdpauSurfaceNV");
        reveal_strlit("GLvoid");
        reveal_strlit("GLvoid *");
        assert(precedes(spellings[78], "GLvoid"@) && precedes("GLvoid"@, spellings[79]));
        lemma_out_of_line_unlisted(spelling);
    } else {
        reveal_strlit("__GLXextFuncPtr");
        reveal_strlit("c_void");
        reveal_strlit("const COLORREF *");
        assert(precedes(spellings[116], "c_void"@) && precedes("c_void"@, spellings[117]));
        lemma_out_of_line_unlisted(spelling);
    }
}

impl TypeTable {
    /// The standard table.
    pub fn standard() -> (table: TypeTable)
        ensures
            table@ == standard_table(),
    {
        let listed = STANDARD_ENTRIES;
        let mut entries: Vec<Entry> = Vec::new();
        let mut at: usize = 0;
        while at < listed.len()
            invariant
                at <= listed@.len(),
                listed@ == STANDARD_ENTRIES@,
                entries@ == listed@.take(at as int),
            decreases listed@.len() - at,
        {
            entries.push(listed[at]);
            assert(entries@ =~= listed@.take(at + 1));
            at += 1;
        }
        proof {
            assert(entries@ =~= STANDARD_ENTRIES@);
            lemma_standard_distinct();
        }
        TypeTable::from_distinct(entries)
    }
}

} // verus!
