//! Typed errors for the wrapper, and the captured form of the native
//! library's out-of-band error channel.

use vstd::prelude::*;

verus! {

/// The detail captured from the native exception struct after a failed
/// call: a severity code and the description and reason byte strings the
/// native library filled in, if it filled them in at all. The byte strings
/// stay undecoded; they are turned into text only when a caller renders
/// the error.
#[derive(Debug)]
pub struct ExceptionInfo {
    pub severity: u32,
    pub description: Option<Vec<u8>>,
    pub reason: Option<Vec<u8>>,
}

impl ExceptionInfo {
    /// Whether the capture carries any usable detail.
    pub open spec fn has_detail(&self) -> bool {
        self.description is Some || self.reason is Some
    }

    /// The rendering of the capture as bytes: description and reason
    /// joined by a separator, each empty when absent.
    pub open spec fn spec_message_bytes(&self) -> Seq<u8> {
        let d = match self.description {
            Option::Some(v) => v@,
            Option::None => Seq::<u8>::empty(),
        };
        let r = match self.reason {
            Option::Some(v) => v@,
            Option::None => Seq::<u8>::empty(),
        };
        d + seq![58u8, 32u8] + r
    }

    /// An empty capture, as handed to a native call before it runs.
    pub fn new() -> (r: ExceptionInfo)
        ensures
            r.severity == 0,
            r.description is None,
            r.reason is None,
            !r.has_detail(),
    {
        ExceptionInfo { severity: 0, description: None, reason: None }
    }

    /// Render the capture as bytes: the description, a `": "` separator,
    /// then the reason.
    pub fn message_bytes(&self) -> (r: Vec<u8>)
        ensures
            r@ == self.spec_message_bytes(),
    {
        let mut out: Vec<u8> = Vec::new();
        match &self.description {
            Option::Some(d) => {
                let mut i: usize = 0;
                while i < d.len()
                    invariant
                        i <= d.len(),
                        out@ == d@.take(i as int),
                    decreases d.len() - i,
                {
                    out.push(d[i]);
                    i = i + 1;
                    proof {
                        assert(out@ == d@.take(i as int));
                    }
                }
                proof {
                    assert(d@.take(d@.len() as int) == d@);
                }
            },
            Option::None => {},
        }
        out.push(58u8);
        out.push(32u8);
        let ghost head: Seq<u8> = out@;
        match &self.reason {
            Option::Some(d) => {
                let mut i: usize = 0;
                while i < d.len()
                    invariant
                        i <= d.len(),
                        out@ == head + d@.take(i as int),
                    decreases d.len() - i,
                {
                    out.push(d[i]);
                    i = i + 1;
                    proof {
                        assert(out@ == head + d@.take(i as int));
                    }
                }
                proof {
                    assert(d@.take(d@.len() as int) == d@);
                }
            },
            Option::None => {},
        }
        proof {
            assert(out@ =~= self.spec_message_bytes());
        }
        out
    }
}

/// The wrapper's error taxonomy. A failed native call with usable captured
/// detail becomes `NativeFailure`; text that cannot be decoded, or a path
/// or format string that cannot be laid out as a terminated byte sequence
/// in a fixed-capacity native field, becomes `EncodingFailure`; a sink
/// failure while writing is `IoFailure`; a native failure whose capture
/// holds no detail is `Unclassified`.
#[derive(Debug)]
pub enum Error {
    NativeFailure(ExceptionInfo),
    EncodingFailure,
    IoFailure,
    Unclassified,
}

/// How a captured exception is classified.
pub open spec fn spec_native_error(exception: ExceptionInfo) -> Error {
    if exception.has_detail() {
        Error::NativeFailure(exception)
    } else {
        Error::Unclassified
    }
}

/// Translate a captured exception into a typed error: the capture itself
/// when it holds detail, `Unclassified` when it holds none.
pub fn native_error(exception: ExceptionInfo) -> (r: Error)
    ensures
        r == spec_native_error(exception),
{
    if exception.description.is_some() || exception.reason.is_some() {
        Error::NativeFailure(exception)
    } else {
        Error::Unclassified
    }
}

} // verus!
