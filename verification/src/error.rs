use vstd::prelude::*;

verus! {

/// The error type of the garasu rendering engine, carried through unchanged.
#[verifier::external_type_specification]
#[verifier::external_body]
pub struct ExGarasuError(garasu::GarasuError);

/// Errors of the application runner.
#[derive(Debug)]
pub enum MadoriError {
    GpuInit(String),
    Window(String),
    Render(String),
    Garasu(garasu::GarasuError),
    EventLoop(String),
}

/// Results whose error is a [`MadoriError`].
pub type Result<T> = std::result::Result<T, MadoriError>;

/// Whether `text` has the shape of a garasu error message: one of the
/// prefixes of garasu's four error kinds (GPU, shader, window, I/O),
/// followed by the kind's detail.
pub open spec fn garasu_text(text: Seq<char>) -> bool {
    ||| starts_with(text, "GPU error: "@)
    ||| starts_with(text, "shader error: "@)
    ||| starts_with(text, "window error: "@)
    ||| starts_with(text, "I/O error: "@)
}

/// `<garasu::GarasuError as Display>::fmt`, through `to_string`. Claimed:
/// the text starts with the prefix of the error's kind, as garasu's
/// `#[error(..)]` attributes write it. The detail after the prefix is not
/// stated: the error is opaque here, and the I/O kind's detail is the
/// operating system's text.
#[verifier::external_body]
fn garasu_message(e: &garasu::GarasuError) -> (r: String)
    ensures
        garasu_text(r@),
{
    e.to_string()
}

/// The text that precedes the detail in the message of an error of this kind.
pub open spec fn message_prefix(e: MadoriError) -> Seq<char> {
    match e {
        MadoriError::GpuInit(_) => "GPU initialization failed: "@,
        MadoriError::Window(_) => "window creation failed: "@,
        MadoriError::Render(_) => "render error: "@,
        MadoriError::Garasu(_) => "garasu error: "@,
        MadoriError::EventLoop(_) => "event loop error: "@,
    }
}

/// `text` with `n` characters or more, the first `n` of which are `prefix`.
pub open spec fn starts_with(text: Seq<char>, prefix: Seq<char>) -> bool {
    prefix.len() <= text.len() && text.subrange(0, prefix.len() as int) == prefix
}

/// `prefix` followed by `detail`.
pub(crate) fn joined(prefix: &str, detail: &str) -> (r: String)
    ensures
        r@ == prefix@ + detail@,
{
    let mut r = String::from_str(prefix);
    r.append(detail);
    r
}

impl MadoriError {
    /// The error's message: the kind's prefix, then the detail it carries.
    pub fn to_string(&self) -> (r: String)
        ensures
            match self {
                MadoriError::GpuInit(s) => r@ == message_prefix(*self) + s@,
                MadoriError::Window(s) => r@ == message_prefix(*self) + s@,
                MadoriError::Render(s) => r@ == message_prefix(*self) + s@,
                MadoriError::EventLoop(s) => r@ == message_prefix(*self) + s@,
                MadoriError::Garasu(_) => starts_with(r@, message_prefix(*self)) && garasu_text(
                    r@.subrange(message_prefix(*self).len() as int, r@.len() as int),
                ),
            },
    {
        match self {
            MadoriError::GpuInit(s) => joined("GPU initialization failed: ", s.as_str()),
            MadoriError::Window(s) => joined("window creation failed: ", s.as_str()),
            MadoriError::Render(s) => joined("render error: ", s.as_str()),
            MadoriError::EventLoop(s) => joined("event loop error: ", s.as_str()),
            MadoriError::Garasu(e) => {
                let detail = garasu_message(e);
                let r = joined("garasu error: ", detail.as_str());
                assert(r@.subrange(0, "garasu error: "@.len() as int) =~= "garasu error: "@);
                assert(r@.subrange("garasu error: "@.len() as int, r@.len() as int) =~= detail@);
                r
            },
        }
    }
}

impl From<garasu::GarasuError> for MadoriError {
    fn from(e: garasu::GarasuError) -> (r: MadoriError) {
        MadoriError::Garasu(e)
    }
}

impl vstd::std_specs::convert::FromSpecImpl<garasu::GarasuError> for MadoriError {
    open spec fn obeys_from_spec() -> bool {
        true
    }

    open spec fn from_spec(v: garasu::GarasuError) -> MadoriError {
        MadoriError::Garasu(v)
    }
}

} // verus!
