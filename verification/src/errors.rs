//! The crate's error type.  Transport-level failures are represented by
//! their text; the variants a transport adapter needs beyond these live
//! outside the verified core.

use vstd::prelude::*;
use vstd::string::StringExecFns;

verus! {

/// An error surfaced by the core logic.
#[derive(Debug)]
pub enum Errno {
    /// A described failure.
    New(String),
    /// The peer closed the connection.
    ConnectionClosed,
}

/// Mathematical view of an [`Errno`].
#[verifier::ext_equal]
pub ghost enum ErrnoV {
    New(Seq<char>),
    ConnectionClosed,
}

impl View for Errno {
    type V = ErrnoV;

    open spec fn view(&self) -> ErrnoV {
        match self {
            Errno::New(s) => ErrnoV::New(s@),
            Errno::ConnectionClosed => ErrnoV::ConnectionClosed,
        }
    }
}

impl Clone for Errno {
    fn clone(&self) -> (r: Self)
        ensures
            r@ == self@,
    {
        match self {
            Errno::New(s) => Errno::New(s.clone()),
            Errno::ConnectionClosed => Errno::ConnectionClosed,
        }
    }
}

/// The text of an error's view.
pub open spec fn spec_text(e: ErrnoV) -> Seq<char> {
    match e {
        ErrnoV::New(s) => "error `"@ + s + "`"@,
        ErrnoV::ConnectionClosed => "connection closed"@,
    }
}

impl Errno {
    /// Renders the error as text.
    pub fn text(&self) -> (r: String)
        ensures
            r@ == spec_text(self@),
    {
        match self {
            Errno::New(s) => {
                let mut t = String::from_str("error `");
                t.append(s.as_str());
                t.append("`");
                t
            },
            Errno::ConnectionClosed => String::from_str("connection closed"),
        }
    }
}

} // verus!
