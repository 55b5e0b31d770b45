use vstd::prelude::*;
use vstd::string::StringExecFns;

verus! {

/// A shader program built from a vertex and a fragment stage, identified by
/// the handle that the driver returned for it.
#[allow(non_snake_case)]
pub struct Shader {
    pub ID: u32,
}

/// The object whose build result is checked: one of the two stages, or the
/// linked program.
#[derive(Clone, Copy, Debug, PartialEq, Eq, Structural)]
pub enum ShaderType {
    Vertex,
    Fragment,
    Program,
}

/// Which status flag of the driver tells whether an object was built: a stage
/// is checked by its compile status, a program by its link status.
#[derive(Clone, Copy, Debug, PartialEq, Eq, Structural)]
pub enum StatusQuery {
    Compile,
    Link,
}

/// The value in which the driver reports a successful compile or link.
pub const STATUS_TRUE: i32 = 1;

/// The size, in bytes, of the buffer that receives a driver's diagnostic log.
pub const INFO_LOG_CAPACITY: usize = 1024;

impl ShaderType {
    pub open spec fn label_spec(self) -> Seq<char> {
        match self {
            ShaderType::Vertex => "VERTEX"@,
            ShaderType::Fragment => "FRAGMENT"@,
            ShaderType::Program => "PROGRAM"@,
        }
    }

    pub open spec fn query_spec(self) -> StatusQuery {
        match self {
            ShaderType::Program => StatusQuery::Link,
            _ => StatusQuery::Compile,
        }
    }

    /// The name under which the object's kind appears in a report.
    pub fn label(&self) -> (r: &'static str)
        ensures
            r@ == self.label_spec(),
    {
        match self {
            ShaderType::Vertex => "VERTEX",
            ShaderType::Fragment => "FRAGMENT",
            ShaderType::Program => "PROGRAM",
        }
    }

    /// The status flag that decides whether the object was built.
    pub fn status_query(&self) -> (q: StatusQuery)
        ensures
            q == self.query_spec(),
    {
        match self {
            ShaderType::Program => StatusQuery::Link,
            _ => StatusQuery::Compile,
        }
    }
}

/// Whether a status flag read back from the driver reports success.
pub fn succeeded(status: i32) -> (ok: bool)
    ensures
        ok == (status == STATUS_TRUE),
{
    status == STATUS_TRUE
}

pub open spec fn heading_spec(t: ShaderType) -> Seq<char> {
    match t {
        ShaderType::Program => "ERROR::PROGRAM_LINKING_ERROR of type: "@,
        _ => "ERROR::SHADER_COMPILATION_ERROR of type: "@,
    }
}

pub open spec fn footer_spec() -> Seq<char> {
    "\n -- --------------------------------------------------- -- "@
}

/// The report printed for an object that failed to build, around the log that
/// the driver gave for it.
pub open spec fn report_spec(t: ShaderType, log: Seq<char>) -> Seq<char> {
    heading_spec(t) + t.label_spec() + "\n"@ + log + footer_spec()
}

/// Builds the report for an object of kind `t` that failed to build, with the
/// driver's diagnostic `log`.
pub fn error_report(t: ShaderType, log: &str) -> (r: String)
    ensures
        r@ == report_spec(t, log@),
{
    let heading = match t {
        ShaderType::Program => "ERROR::PROGRAM_LINKING_ERROR of type: ",
        _ => "ERROR::SHADER_COMPILATION_ERROR of type: ",
    };
    let mut r = String::from_str(heading);
    r.append(t.label());
    r.append("\n");
    r.append(log);
    r.append("\n -- --------------------------------------------------- -- ");
    r
}

/// The length of the text that the driver wrote into a log buffer: the bytes
/// before the first zero byte, or the whole buffer where none is zero.
pub fn info_log_len(buf: &[u8]) -> (n: usize)
    ensures
        n <= buf@.len(),
        forall|i: int| 0 <= i < n ==> buf@[i] != 0u8,
        n < buf@.len() ==> buf@[n as int] == 0u8,
{
    let mut n: usize = 0;
    while n < buf.len()
        invariant
            n <= buf@.len(),
            forall|i: int| 0 <= i < n ==> buf@[i] != 0u8,
        decreases buf@.len() - n,
    {
        if buf[n] == 0u8 {
            return n;
        }
        n = n + 1;
    }
    n
}

} // verus!
