//! The blocks of declarations that generated bindings open with.

use vstd::prelude::*;

verus! {

/// The name of a block of declarations.
#[derive(Clone, Copy, Debug, PartialEq, Eq, Structural)]
pub enum BlockId {
    /// The types of OpenGL itself.
    Gl,
    /// The types of the X Window System that GLX builds on.
    X,
    /// The types of GLX.
    Glx,
    /// The types of the Windows headers that WGL builds on.
    Win,
    /// The handle types of WGL.
    Wgl,
}

/// The declarations of the types of OpenGL itself, line by line.
pub const GL_ALIASES: [&'static str; 56] = [
    "// Common types from OpenGL 1.1",
    "pub type GLenum = ::libc::c_uint;",
    "pub type GLboolean = ::libc::c_uchar;",
    "pub type GLbitfield = ::libc::c_uint;",
    "pub type GLvoid = ::libc::c_void;",
    "pub type GLbyte = ::libc::c_char;",
    "pub type GLshort = ::libc::c_short;",
    "pub type GLint = ::libc::c_int;",
    "pub type GLclampx = ::libc::c_int;",
    "pub type GLubyte = ::libc::c_uchar;",
    "pub type GLushort = ::libc::c_ushort;",
    "pub type GLuint = ::libc::c_uint;",
    "pub type GLsizei = ::libc::c_int;",
    "pub type GLfloat = ::libc::c_float;",
    "pub type GLclampf = ::libc::c_float;",
    "pub type GLdouble = ::libc::c_double;",
    "pub type GLclampd = ::libc::c_double;",
    "pub type GLeglImageOES = *const ::libc::c_void;",
    "pub type GLchar = ::libc::c_char;",
    "pub type GLcharARB = ::libc::c_char;",
    "",
    "#[cfg(target_os = \"macos\")]",
    "pub type GLhandleARB = *const ::libc::c_void;",
    "#[cfg(not(target_os = \"macos\"))]",
    "pub type GLhandleARB = ::libc::c_uint;",
    "",
    "pub type GLhalfARB = ::libc::c_ushort;",
    "pub type GLhalf = ::libc::c_ushort;",
    "",
    "// Must be 32 bits",
    "pub type GLfixed = GLint;",
    "",
    "pub type GLintptr = ::libc::ptrdiff_t;",
    "pub type GLsizeiptr = ::libc::ptrdiff_t;",
    "pub type GLint64 = i64;",
    "pub type GLuint64 = u64;",
    "pub type GLintptrARB = ::libc::ptrdiff_t;",
    "pub type GLsizeiptrARB = ::libc::ptrdiff_t;",
    "pub type GLint64EXT = i64;",
    "pub type GLuint64EXT = u64;",
    "",
    "pub struct __GLsync;",
    "pub type GLsync = *const __GLsync;",
    "",
    "// compatible with OpenCL cl_context",
    "pub struct _cl_context;",
    "pub struct _cl_event;",
    "",
    "pub type GLDEBUGPROC = extern \"system\" fn(source: GLenum, gltype: GLenum, id: GLuint, severity: GLenum, length: GLsizei, message: *const GLchar, userParam: *mut ::libc::c_void);",
    "pub type GLDEBUGPROCARB = extern \"system\" fn(source: GLenum, gltype: GLenum, id: GLuint, severity: GLenum, length: GLsizei, message: *const GLchar, userParam: *mut ::libc::c_void);",
    "pub type GLDEBUGPROCKHR = extern \"system\" fn(source: GLenum, gltype: GLenum, id: GLuint, severity: GLenum, length: GLsizei, message: *const GLchar, userParam: *mut ::libc::c_void);",
    "",
    "// Vendor extension types",
    "pub type GLDEBUGPROCAMD = extern \"system\" fn(id: GLuint, category: GLenum, severity: GLenum, length: GLsizei, message: *const GLchar, userParam: *mut ::libc::c_void);",
    "pub type GLhalfNV = ::libc::c_ushort;",
    "pub type GLvdpauSurfaceNV = GLintptr;",
];

/// The declarations of the types of the X Window System that GLX builds on, line by line.
pub const X_ALIASES: [&'static str; 3] = [
    "pub type XID = ::libc::c_ulong;",
    "pub type Bool = ::libc::c_int;         // Not sure if this is correct...",
    "pub struct Display;",
];

/// The declarations of the types of GLX, line by line.
pub const GLX_ALIASES: [&'static str; 97] = [
    "pub type GLXFBConfigID = XID;",
    "pub type GLXFBConfig = *const ::libc::c_void;",
    "pub type GLXContextID = XID;",
    "pub type GLXContext = *const ::libc::c_void;",
    "pub type GLXPixmap = XID;",
    "pub type GLXDrawable = XID;",
    "pub type GLXWindow = XID;",
    "pub type GLXPbuffer = XID;",
    "pub type __GLXextFuncPtr = extern \"system\" fn();",
    "pub type GLXVideoCaptureDeviceNV = XID;",
    "pub type GLXVideoDeviceNV = ::libc::c_int;",
    "pub type GLXVideoSourceSGIX = XID;",
    "pub type GLXFBConfigIDSGIX = XID;",
    "pub type GLXFBConfigSGIX = *const ::libc::c_void;",
    "pub type GLXPbufferSGIX = XID;",
    "",
    "pub struct GLXPbufferClobberEvent {",
    "    event_type: ::libc::c_int,          // GLX_DAMAGED or GLX_SAVED",
    "    draw_type: ::libc::c_int,           // GLX_WINDOW or GLX_PBUFFER",
    "    serial: ::libc::c_ulong,            // # of last request processed by server",
    "    send_event: Bool,           // true if this came for SendEvent request",
    "    display: *const Display,          // display the event was read from",
    "    drawable: GLXDrawable,      // XID of Drawable",
    "    buffer_mask: ::libc::c_uint,        // mask indicating which buffers are affected",
    "    aux_buffer: ::libc::c_uint,         // which aux buffer was affected",
    "    x: ::libc::c_int,",
    "    y: ::libc::c_int,",
    "    width: ::libc::c_int,",
    "    height: ::libc::c_int,",
    "    count: ::libc::c_int,               // if nonzero, at least this many more",
    "}",
    "",
    "pub struct GLXBufferSwapComplete {",
    "    type: ::libc::c_int,",
    "    serial: ::libc::c_ulong,            // # of last request processed by server",
    "    send_event: Bool,           // true if this came from a SendEvent request",
    "    display: *const Display,          // Display the event was read from",
    "    drawable: GLXDrawable,      // drawable on which event was requested in event mask",
    "    event_type: ::libc::c_int,",
    "    ust: i64,",
    "    msc: i64,",
    "    sbc: i64,",
    "}",
    "",
    "// typedef union __GLXEvent {",
    "//     GLXPbufferClobberEvent glxpbufferclobber;",
    "//     GLXBufferSwapComplete glxbufferswapcomplete;",
    "//     long pad[24];",
    "// } GLXEvent;",
    "",
    "pub struct GLXBufferClobberEventSGIX {",
    "    type: ::libc::c_int,",
    "    serial: ::libc::c_ulong,            // # of last request processed by server",
    "    send_event: Bool,           // true if this came for SendEvent request",
    "    display: *const Display,          // display the event was read from",
    "    drawable: GLXDrawable,      // i.d. of Drawable",
    "    event_type: ::libc::c_int,          // GLX_DAMAGED_SGIX or GLX_SAVED_SGIX",
    "    draw_type: ::libc::c_int,           // GLX_WINDOW_SGIX or GLX_PBUFFER_SGIX",
    "    mask: ::libc::c_uint,               // mask indicating which buffers are affected",
    "    x: ::libc::c_int,",
    "    y: ::libc::c_int,",
    "    width: ::libc::c_int,",
    "    height: ::libc::c_int,",
    "    count: ::libc::c_int,               // if nonzero, at least this many more",
    "}",
    "",
    "pub struct GLXHyperpipeNetworkSGIX {",
    "    pipeName: [::libc::c_char, ..80],   // Should be [GLX_HYPERPIPE_PIPE_NAME_LENGTH_SGIX]",
    "    networkId: ::libc::c_int,",
    "}",
    "",
    "pub struct GLXHyperpipeConfigSGIX {",
    "    pipeName: [::libc::c_char, ..80],   // Should be [GLX_HYPERPIPE_PIPE_NAME_LENGTH_SGIX]",
    "    channel: ::libc::c_int,",
    "    participationType: ::libc::c_uint,",
    "    timeSlice: ::libc::c_int,",
    "}",
    "",
    "pub struct GLXPipeRect {",
    "    pipeName: [::libc::c_char, ..80],   // Should be [GLX_HYPERPIPE_PIPE_NAME_LENGTH_SGIX]",
    "    srcXOrigin: ::libc::c_int,",
    "    srcYOrigin: ::libc::c_int,",
    "    srcWidth: ::libc::c_int,",
    "    srcHeight: ::libc::c_int,",
    "    destXOrigin: ::libc::c_int,",
    "    destYOrigin: ::libc::c_int,",
    "    destWidth: ::libc::c_int,",
    "    destHeight: ::libc::c_int,",
    "}",
    "",
    "pub struct GLXPipeRectLimits {",
    "    pipeName: [::libc::c_char, ..80],   // Should be [GLX_HYPERPIPE_PIPE_NAME_LENGTH_SGIX]",
    "    XOrigin: ::libc::c_int,",
    "    YOrigin: ::libc::c_int,",
    "    maxHeight: ::libc::c_int,",
    "    maxWidth: ::libc::c_int,",
    "}",
];

/// The declarations of the types of the Windows headers that WGL builds on, line by line.
pub const WIN_ALIASES: [&'static str; 102] = [
    "// From WinNT.h",
    "pub type CHAR = ::libc::c_char;",
    "pub type HANDLE = PVOID;",
    "pub type LONG = ::libc::c_long;",
    "pub type LPCSTR = *const ::libc::c_char;",
    "pub type VOID = ::libc::c_void;",
    "",
    "// From Windef.h",
    "pub type BOOL = ::libc::c_int;",
    "pub type BYTE = ::libc::c_uchar;",
    "pub type COLORREF = DWORD;",
    "pub type FLOAT = ::libc::c_float;",
    "pub type HDC = HANDLE;",
    "pub type HENHMETAFILE = HANDLE;",
    "pub type HGLRC = *const ::libc::c_void;",
    "pub type INT = ::libc::c_int;",
    "pub type LPVOID = *const ::libc::c_void;",
    "pub type PROC = extern \"system\" fn();     // Not sure about this one :/",
    "pub struct RECT {",
    "    left: LONG,",
    "    top: LONG,",
    "    right: LONG,",
    "    bottom: LONG,",
    "}",
    "pub type UINT = ::libc::c_uint;",
    "pub type USHORT = ::libc::c_ushort;",
    "pub type WORD = ::libc::c_ushort;",
    "",
    "// From BaseTsd.h",
    "pub type INT32 = i32;",
    "pub type INT64 = i64;",
    "",
    "// From IntSafe.h",
    "pub type DWORD = ::libc::c_ulong;",
    "",
    "// From Wingdi.h",
    "pub struct POINTFLOAT {",
    "    x: FLOAT,",
    "    y: FLOAT,",
    "} ",
    "pub struct GLYPHMETRICSFLOAT {",
    "    gmfBlackBoxX: FLOAT,",
    "    gmfBlackBoxY: FLOAT,",
    "    gmfptGlyphOrigin: POINTFLOAT,",
    "    gmfCellIncX: FLOAT,",
    "    gmfCellIncY: FLOAT,",
    "}",
    "pub type LPGLYPHMETRICSFLOAT = *const GLYPHMETRICSFLOAT;",
    "pub struct LAYERPLANEDESCRIPTOR {",
    "    nSize: WORD,",
    "    nVersion: WORD,",
    "    dwFlags: DWORD,",
    "    iPixelType: BYTE,",
    "    cColorBits: BYTE,",
    "    cRedBits: BYTE,",
    "    cRedShift: BYTE,",
    "    cGreenBits: BYTE,",
    "    cGreenShift: BYTE,",
    "    cBlueBits: BYTE,",
    "    cBlueShift: BYTE,",
    "    cAlphaBits: BYTE,",
    "    cAlphaShift: BYTE,",
    "    cAccumBits: BYTE,",
    "    cAccumRedBits: BYTE,",
    "    cAccumGreenBits: BYTE,",
    "    cAccumBlueBits: BYTE,",
    "    cAccumAlphaBits: BYTE,",
    "    cDepthBits: BYTE,",
    "    cStencilBits: BYTE,",
    "    cAuxBuffers: BYTE,",
    "    iLayerType: BYTE,",
    "    bReserved: BYTE,",
    "    crTransparent: COLORREF,",
    "}",
    "pub struct PIXELFORMATDESCRIPTOR {",
    "    nSize: WORD,",
    "    nVersion: WORD,",
    "    dwFlags: DWORD,",
    "    iPixelType: BYTE,",
    "    cColorBits: BYTE,",
    "    cRedBits: BYTE,",
    "    cRedShift: BYTE,",
    "    cGreenBits: BYTE,",
    "    cGreenShift: BYTE,",
    "    cBlueBits: BYTE,",
    "    cBlueShift: BYTE,",
    "    cAlphaBits: BYTE,",
    "    cAlphaShift: BYTE,",
    "    cAccumBits: BYTE,",
    "    cAccumRedBits: BYTE,",
    "    cAccumGreenBits: BYTE,",
    "    cAccumBlueBits: BYTE,",
    "    cAccumAlphaBits: BYTE,",
    "    cDepthBits: BYTE,",
    "    cStencilBits: BYTE,",
    "    cAuxBuffers: BYTE,",
    "    iLayerType: BYTE,",
    "    bReserved: BYTE,",
    "    dwLayerMask: DWORD,",
    "    dwVisibleMask: DWORD,",
    "    dwDamageMask: DWORD,",
    "}",
];

/// The declarations of the handle types of WGL, line by line.
pub const WGL_ALIASES: [&'static str; 24] = [
    "// From WinNT.h",
    "// #define DECLARE_HANDLE(name) struct name##__{int unused;}; typedef struct name##__ *name",
    "macro_rules! DECLARE_HANDLE(",
    "    ($name:ident) => (",
    "        pub type $name = *const ::libc::c_void;",
    "    )",
    ")",
    "",
    "pub struct _GPU_DEVICE {",
    "    cb: DWORD,",
    "    DeviceName: [CHAR, ..32],",
    "    DeviceString: [CHAR, ..128],",
    "    Flags: DWORD,",
    "    rcVirtualScreen: RECT,",
    "}",
    "DECLARE_HANDLE!(HPBUFFERARB)",
    "DECLARE_HANDLE!(HPBUFFEREXT)",
    "DECLARE_HANDLE!(HVIDEOOUTPUTDEVICENV)",
    "DECLARE_HANDLE!(HPVIDEODEV)",
    "DECLARE_HANDLE!(HPGPUNV)",
    "DECLARE_HANDLE!(HGPUNV)",
    "DECLARE_HANDLE!(HVIDEOINPUTDEVICENV)",
    "pub struct GPU_DEVICE(_GPU_DEVICE);",
    "pub struct PGPU_DEVICE(*const _GPU_DEVICE);",
];

/// Source text to be written out as it stands, line by line.
pub type Src = &'static [&'static str];

/// The texts of `lines`, in their order.
pub open spec fn texts_of(lines: Seq<&'static str>) -> Seq<Seq<char>> {
    Seq::new(lines.len(), |i: int| lines[i]@)
}

/// The lines of the block that `id` names.
pub open spec fn block_lines(id: BlockId) -> Seq<Seq<char>> {
    match id {
        BlockId::Gl => texts_of(GL_ALIASES@),
        BlockId::X => texts_of(X_ALIASES@),
        BlockId::Glx => texts_of(GLX_ALIASES@),
        BlockId::Win => texts_of(WIN_ALIASES@),
        BlockId::Wgl => texts_of(WGL_ALIASES@),
    }
}

/// The block that `id` names: its lines, in the order in which they are to
/// be written out. No block is empty.
pub fn get_alias_block(id: BlockId) -> (lines: Src)
    ensures
        texts_of(lines@) == block_lines(id),
        lines@.len() > 0,
{
    match id {
        BlockId::Gl => &GL_ALIASES,
        BlockId::X => &X_ALIASES,
        BlockId::Glx => &GLX_ALIASES,
        BlockId::Win => &WIN_ALIASES,
        BlockId::Wgl => &WGL_ALIASES,
    }
}

} // verus!
