//! The destination of build instructions: the process's standard output by
//! default, or an in-memory capture that a caller installs and takes back.
use vstd::prelude::*;
use vstd::string::StringExecFns;

verus! {

/// std::io::Stdout, the handle to standard output, carried through unopened.
#[verifier::external_type_specification]
#[verifier::external_body]
pub struct ExStdout(std::io::Stdout);

/// Relies on std::io::stdout: it hands out a handle to the process's standard
/// output.
#[verifier::external_body]
fn stdout_handle() -> std::io::Stdout {
    std::io::stdout()
}

/// Relies on std::io::Write::write_all for a standard output handle: it reports
/// whether all of the bytes of `text` were written. Whether they were depends
/// on the process's surroundings, so nothing is promised of the result.
#[verifier::external_body]
fn write_all_stdout(out: &mut std::io::Stdout, text: &str) -> (ok: bool) {
    std::io::Write::write_all(out, text.as_bytes()).is_ok()
}

/// The destination rejected a write.
#[derive(Debug, Clone, Copy, PartialEq, Eq)]
pub struct WriteError;

enum Destination {
    Stdout(std::io::Stdout),
    Capture(String),
}

/// What a sink is, as far as its users can observe: the text held by the
/// installed capture (`None` while standard output is the destination) and the
/// texts, one after another, whose write to standard output through this sink
/// succeeded in full. A failed write may have left part of its text on standard
/// output; that part is not recorded here.
pub struct OutView {
    pub capture: Option<Seq<char>>,
    pub printed: Seq<char>,
}

impl OutView {
    /// The view after `text` has reached the current destination.
    pub open spec fn emit(self, text: Seq<char>) -> OutView {
        match self.capture {
            Some(c) => OutView { capture: Some(c + text), printed: self.printed },
            None => OutView { capture: None, printed: self.printed + text },
        }
    }

    /// The view once a capture that starts with `c` is installed.
    pub open spec fn with_capture(self, c: Seq<char>) -> OutView {
        OutView { capture: Some(c), printed: self.printed }
    }

    /// The view once standard output is the destination again.
    pub open spec fn without_capture(self) -> OutView {
        OutView { capture: None, printed: self.printed }
    }

    /// The outcome `r` of writing `text` took the sink from `self` to `after`: on
    /// success the text reached the destination; a failure leaves the view as it
    /// was, and only standard output can fail, and only on text that is not empty.
    /// (Standard output may still have received part of a text whose write
    /// failed.)
    pub open spec fn wrote(self, after: OutView, r: Result<(), WriteError>, text: Seq<char>) -> bool {
        &&& r is Ok ==> after == self.emit(text)
        &&& r is Err ==> after == self && self.capture is None && text.len() > 0
    }
}

/// The sink that build instructions are written to. Exactly one destination is
/// installed at a time; the last `set` or `reset` decides which.
pub struct CargoBuildOut {
    dest: Destination,
    printed: Ghost<Seq<char>>,
}

impl View for CargoBuildOut {
    type V = OutView;

    closed spec fn view(&self) -> OutView {
        OutView {
            capture: match self.dest {
                Destination::Stdout(_) => None,
                Destination::Capture(c) => Some(c@),
            },
            printed: self.printed@,
        }
    }
}

impl CargoBuildOut {
    /// A sink that writes to standard output.
    pub fn new() -> (out: CargoBuildOut)
        ensures
            out@ == (OutView { capture: None, printed: Seq::empty() }),
    {
        CargoBuildOut { dest: Destination::Stdout(stdout_handle()), printed: Ghost(Seq::empty()) }
    }

    /// Makes standard output the destination again, and hands back the capture
    /// that was installed, if any.
    pub fn reset(&mut self) -> (taken: Option<String>)
        ensures
            final(self)@ == old(self)@.without_capture(),
            match old(self)@.capture {
                Some(c) => taken is Some && taken->0@ == c,
                None => taken is None,
            },
    {
        let mut dest = Destination::Stdout(stdout_handle());
        std::mem::swap(&mut self.dest, &mut dest);
        match dest {
            Destination::Stdout(_) => None,
            Destination::Capture(c) => Some(c),
        }
    }

    /// Installs an in-memory capture that starts with the text of `capture`;
    /// what follows is appended to it. Any capture installed before is dropped.
    pub fn set(&mut self, capture: String)
        ensures
            final(self)@ == old(self)@.with_capture(capture@),
    {
        self.dest = Destination::Capture(capture);
    }

    /// The text held by the installed capture, if one is installed.
    pub fn captured(&self) -> (r: Option<&str>)
        ensures
            match self@.capture {
                Some(c) => r is Some && r->0@ == c,
                None => r is None,
            },
    {
        match &self.dest {
            Destination::Stdout(_) => None,
            Destination::Capture(c) => Some(c.as_str()),
        }
    }

    /// Writes `text` to the installed destination in a single write. Writing to a
    /// capture never fails; an empty text is not handed to standard output. A
    /// failed write to standard output may have sent part of `text`.
    pub fn write_str(&mut self, text: &str) -> (r: Result<(), WriteError>)
        ensures
            old(self)@.wrote(final(self)@, r, text@),
    {
        if text.is_empty() {
            proof {
                assert(self@.printed + text@ =~= self@.printed);
                assert(self@.capture is Some ==> self@.capture->0 + text@ =~= self@.capture->0);
            }
            return Ok(());
        }
        match &mut self.dest {
            Destination::Capture(c) => {
                c.append(text);
                Ok(())
            },
            Destination::Stdout(handle) => {
                if write_all_stdout(handle, text) {
                    self.printed = Ghost(self.printed@ + text@);
                    Ok(())
                } else {
                    Err(WriteError)
                }
            },
        }
    }
}

} // verus!
