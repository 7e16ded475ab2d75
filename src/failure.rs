use vstd::prelude::*;
use vstd::string::*;

verus! {

/// Exit status of a process that ended because its window was closed.
pub const EXIT_SUCCESS: i32 = 0;

/// Exit status of a process that ended on a failure.
pub const EXIT_FAILURE: i32 = 1;

/// What went wrong, one kind per place where the tool can fail.
#[derive(Clone, Copy, Debug, PartialEq, Eq, Structural)]
pub enum ErrorKind {
    WatchInit,
    WatchAdd,
    DisplayInit,
    ImageLoad,
    TextureCreate,
    ShaderRead,
    ShaderCompile,
    GeometryUpload,
    Draw,
    FileEventRead,
}

/// The fixed sentence that describes each kind of failure.
pub open spec fn kind_text(kind: ErrorKind) -> Seq<char> {
    match kind {
        ErrorKind::WatchInit => "Failed to initialize the file watcher."@,
        ErrorKind::WatchAdd => "Could not add a watch to an input file."@,
        ErrorKind::DisplayInit => "Could not initialize the display."@,
        ErrorKind::ImageLoad => "Could not open image file."@,
        ErrorKind::TextureCreate => "Could not create texture from image."@,
        ErrorKind::ShaderRead => "Could not read shader file."@,
        ErrorKind::ShaderCompile => "Could not compile shader."@,
        ErrorKind::GeometryUpload => "Could not upload the quad geometry."@,
        ErrorKind::Draw => "Could not draw shader."@,
        ErrorKind::FileEventRead => "Could not read file events."@,
    }
}

impl ErrorKind {
    /// The sentence that describes this kind of failure.
    pub fn describe(&self) -> (r: &'static str)
        ensures
            r@ == kind_text(*self),
    {
        match self {
            ErrorKind::WatchInit => "Failed to initialize the file watcher.",
            ErrorKind::WatchAdd => "Could not add a watch to an input file.",
            ErrorKind::DisplayInit => "Could not initialize the display.",
            ErrorKind::ImageLoad => "Could not open image file.",
            ErrorKind::TextureCreate => "Could not create texture from image.",
            ErrorKind::ShaderRead => "Could not read shader file.",
            ErrorKind::ShaderCompile => "Could not compile shader.",
            ErrorKind::GeometryUpload => "Could not upload the quad geometry.",
            ErrorKind::Draw => "Could not draw shader.",
            ErrorKind::FileEventRead => "Could not read file events.",
        }
    }
}

/// A failure that ends the process: its kind, and the diagnostic text that came
/// with it (the compiler's log for a shader, else often empty).
pub struct Failure {
    pub kind: ErrorKind,
    pub detail: String,
}

/// The one line reported for a failure: a prefix, the kind's sentence, and the
/// diagnostic after a separator when there is one.
pub open spec fn failure_line(kind: ErrorKind, detail: Seq<char>) -> Seq<char> {
    if detail.len() == 0 {
        "Error: "@ + kind_text(kind)
    } else {
        "Error: "@ + kind_text(kind) + " "@ + detail
    }
}

impl Failure {
    /// A failure of the given kind with no diagnostic.
    pub fn new(kind: ErrorKind) -> (r: Failure)
        ensures
            r.kind == kind,
            r.detail@ == Seq::<char>::empty(),
    {
        Failure { kind, detail: String::new() }
    }

    /// A failure of the given kind carrying a diagnostic text.
    pub fn with_detail(kind: ErrorKind, detail: String) -> (r: Failure)
        ensures
            r.kind == kind,
            r.detail@ == detail@,
    {
        Failure { kind, detail }
    }

    /// The line reported on the error stream for this failure.
    pub fn message(&self) -> (r: String)
        ensures
            r@ == failure_line(self.kind, self.detail@),
    {
        let mut line = String::from_str("Error: ");
        line.append(self.kind.describe());
        if self.detail.as_str().unicode_len() != 0 {
            line.append(" ");
            line.append(self.detail.as_str());
        }
        line
    }
}

} // verus!
