//! One exchange after another with a keyboard, without the device.
//!
//! Every operation is a list of frames. A frame is written, one answer is read,
//! and the answer decides whether the next frame goes out. The library decides;
//! writing and reading are left to whoever holds the device.

use crate::error::ProtocolError;
use vstd::prelude::*;
use vstd::slice::slice_to_vec;

verus! {

/// A family of boards that speak the same way.
#[derive(Debug, Clone, Copy, PartialEq, Eq, Structural)]
pub enum Dialect {
    Zoom65v3,
    ZoomTklDyna,
}

/// Whether an answer starts with the byte that the frame announces at offset 1.
/// An answer that does not belongs to something else: the two sides have lost
/// step.
pub open spec fn echoes_tag(frame: Seq<u8>, response: Seq<u8>) -> bool {
    response.len() >= 1 && response[0] == frame[1]
}

/// Whether an answer reports success. A Zoom65 v3 sets the two bytes after the
/// tag to one, a Zoom TKL Dyna the first of them.
pub open spec fn reports_success(dialect: Dialect, response: Seq<u8>) -> bool {
    match dialect {
        Dialect::Zoom65v3 => response.len() >= 3 && response[1] == 1 && response[2] == 1,
        Dialect::ZoomTklDyna => response.len() >= 2 && response[1] == 1,
    }
}

/// Whether `response` acknowledges `frame`.
pub open spec fn acknowledges(dialect: Dialect, frame: Seq<u8>, response: Seq<u8>) -> bool {
    echoes_tag(frame, response) && reports_success(dialect, response)
}

/// Takes the answer that was read after `payload` was written, and hands it on
/// if it echoes the tag of the frame. The tag is the byte at offset 1 of the
/// frame: the opcode of a Zoom65 v3 command, `28` for a Zoom TKL Dyna.
///
/// An answer with another tag is not the answer to this frame. Reading on would
/// not bring the two sides back into step, so the caller is told at once.
///
/// A Zoom TKL Dyna has been seen to open an answer with `3` after the clock was
/// set; what that means is not known, and it is not taken for the tag.
pub fn execute(payload: &[u8; 33], response: &[u8]) -> (result: Result<Vec<u8>, ProtocolError>)
    ensures
        match result {
            Ok(bytes) => echoes_tag(payload@, response@) && bytes@ == response@,
            Err(error) => !echoes_tag(payload@, response@) && error
                == ProtocolError::UpdateCommandFailed,
        },
{
    if response.len() < 1 || response[0] != payload[1] {
        return Err(ProtocolError::UpdateCommandFailed);
    }
    Ok(slice_to_vec(response))
}

/// Checks the answer to one frame: it has to echo the tag of the frame and to
/// report success.
pub fn check_response(dialect: Dialect, frame: &[u8; 33], response: &[u8]) -> (result: Result<
    (),
    ProtocolError,
>)
    ensures
        result is Ok <==> acknowledges(dialect, frame@, response@),
        result is Err ==> result == Err::<(), ProtocolError>(ProtocolError::UpdateCommandFailed),
{
    let res = match execute(frame, response) {
        Ok(res) => res,
        Err(error) => {
            return Err(error);
        },
    };
    let success = match dialect {
        Dialect::Zoom65v3 => res.len() >= 3 && res[1] == 1 && res[2] == 1,
        Dialect::ZoomTklDyna => res.len() >= 2 && res[1] == 1,
    };
    if success {
        Ok(())
    } else {
        Err(ProtocolError::UpdateCommandFailed)
    }
}

/// Where an operation stands.
pub struct Progress {
    /// The frames of the operation, in the order in which they go out.
    pub script: Seq<Seq<u8>>,
    /// How many of them the keyboard has acknowledged.
    pub acknowledged: nat,
    /// Why the operation was given up, if it was.
    pub failure: Option<ProtocolError>,
}

impl Progress {
    /// Whether a frame is due.
    pub open spec fn pending(self) -> bool {
        self.failure is None && self.acknowledged < self.script.len()
    }

    /// Whether every frame went out and was acknowledged.
    pub open spec fn succeeded(self) -> bool {
        self.failure is None && self.acknowledged == self.script.len()
    }

    /// What an answer to the frame that is due leads to. An answer that comes
    /// when no frame is due changes nothing.
    pub open spec fn after_response(self, dialect: Dialect, response: Seq<u8>) -> Progress {
        if !self.pending() {
            self
        } else if acknowledges(dialect, self.script[self.acknowledged as int], response) {
            Progress { acknowledged: self.acknowledged + 1, ..self }
        } else {
            Progress { failure: Some(ProtocolError::UpdateCommandFailed), ..self }
        }
    }

    /// What a failure of the device leads to while a frame is due.
    pub open spec fn after_transport_failure(self) -> Progress {
        if !self.pending() {
            self
        } else {
            Progress { failure: Some(ProtocolError::TransportError), ..self }
        }
    }

    /// Where the operation stands after a run of answers, one per frame sent.
    pub open spec fn after_responses(self, dialect: Dialect, responses: Seq<Seq<u8>>) -> Progress
        decreases responses.len(),
    {
        if responses.len() == 0 {
            self
        } else {
            self.after_responses(dialect, responses.drop_last()).after_response(
                dialect,
                responses.last(),
            )
        }
    }
}

/// What the holder of the device has to do next.
#[derive(Debug, Clone, Copy)]
pub enum Action {
    /// Write this frame, read one answer and hand it to [`Transfer::respond`].
    Write([u8; 33]),
    /// Nothing is left to do; this is how the operation ended.
    Finish(Result<(), ProtocolError>),
}

/// An operation on its way: the frames, and how far the keyboard has followed.
pub struct Transfer {
    dialect: Dialect,
    frames: Vec<[u8; 33]>,
    acknowledged: usize,
    failure: Option<ProtocolError>,
}

/// The frames of a list, each as a sequence of bytes.
pub open spec fn frames_of(frames: Seq<[u8; 33]>) -> Seq<Seq<u8>> {
    Seq::new(frames.len(), |i: int| frames[i]@)
}

impl Transfer {
    #[verifier::type_invariant]
    spec fn well_formed(&self) -> bool {
        self.acknowledged <= self.frames@.len()
    }

    /// The dialect of the keyboard that the operation is for.
    pub closed spec fn dialect(&self) -> Dialect {
        self.dialect
    }

    /// Where the operation stands.
    pub closed spec fn progress(&self) -> Progress {
        Progress {
            script: frames_of(self.frames@),
            acknowledged: self.acknowledged as nat,
            failure: self.failure,
        }
    }

    /// An operation that sends `frames` in order and has sent none yet.
    pub fn new(dialect: Dialect, frames: Vec<[u8; 33]>) -> (transfer: Self)
        ensures
            transfer.dialect() == dialect,
            transfer.progress() == (Progress {
                script: frames_of(frames@),
                acknowledged: 0,
                failure: None,
            }),
    {
        Transfer { dialect, frames, acknowledged: 0, failure: None }
    }

    /// An operation of one frame.
    pub fn single(dialect: Dialect, frame: [u8; 33]) -> (transfer: Self)
        ensures
            transfer.dialect() == dialect,
            transfer.progress() == (Progress {
                script: seq![frame@],
                acknowledged: 0,
                failure: None,
            }),
    {
        let frames = vec![frame];
        assert(frames_of(frames@) =~= seq![frame@]);
        Transfer::new(dialect, frames)
    }

    /// How many frames the operation has.
    pub fn frames(&self) -> (count: usize)
        ensures
            count == self.progress().script.len(),
    {
        self.frames.len()
    }

    /// How many frames the keyboard has acknowledged.
    pub fn acknowledged(&self) -> (count: usize)
        ensures
            count == self.progress().acknowledged,
            count <= self.progress().script.len(),
    {
        proof {
            use_type_invariant(self);
        }
        self.acknowledged
    }

    /// What to do next: write the frame that is due, or stop.
    pub fn next(&self) -> (action: Action)
        ensures
            match action {
                Action::Write(frame) => self.progress().pending() && frame@
                    == self.progress().script[self.progress().acknowledged as int],
                Action::Finish(Ok(())) => self.progress().succeeded(),
                Action::Finish(Err(error)) => self.progress().failure == Some(error),
            },
    {
        proof {
            use_type_invariant(self);
        }
        match self.failure {
            Some(error) => Action::Finish(Err(error)),
            None => {
                if self.acknowledged < self.frames.len() {
                    Action::Write(self.frames[self.acknowledged])
                } else {
                    Action::Finish(Ok(()))
                }
            },
        }
    }

    /// Takes the answer that was read after the frame that was due.
    ///
    /// An acknowledgement lets the next frame become due. Anything else ends the
    /// operation with [`ProtocolError::UpdateCommandFailed`]: no frame is due after
    /// that, so nothing more is written or read.
    pub fn respond(&mut self, response: &[u8])
        ensures
            final(self).dialect() == old(self).dialect(),
            final(self).progress() == old(self).progress().after_response(
                old(self).dialect(),
                response@,
            ),
    {
        proof {
            use_type_invariant(&*self);
        }
        if self.failure.is_none() && self.acknowledged < self.frames.len() {
            match check_response(self.dialect, &self.frames[self.acknowledged], response) {
                Ok(()) => {
                    self.acknowledged = self.acknowledged + 1;
                },
                Err(error) => {
                    self.failure = Some(error);
                },
            }
        }
    }

    /// Records that the device failed while a frame was due. The operation ends
    /// with [`ProtocolError::TransportError`].
    pub fn abort(&mut self)
        ensures
            final(self).dialect() == old(self).dialect(),
            final(self).progress() == old(self).progress().after_transport_failure(),
    {
        proof {
            use_type_invariant(&*self);
        }
        if self.failure.is_none() && self.acknowledged < self.frames.len() {
            self.failure = Some(ProtocolError::TransportError);
        }
    }
}

/// An answer that does not echo the tag of the frame that is due ends the
/// operation: it fails with [`ProtocolError::UpdateCommandFailed`], no frame is
/// due any more, and whatever is read later changes nothing.
pub proof fn lemma_tag_mismatch_ends(
    progress: Progress,
    dialect: Dialect,
    response: Seq<u8>,
    later: Seq<u8>,
)
    requires
        progress.pending(),
        !echoes_tag(progress.script[progress.acknowledged as int], response),
    ensures
        progress.after_response(dialect, response).failure == Some(
            ProtocolError::UpdateCommandFailed,
        ),
        !progress.after_response(dialect, response).pending(),
        progress.after_response(dialect, response).acknowledged == progress.acknowledged,
        progress.after_response(dialect, response).after_response(dialect, later)
            == progress.after_response(dialect, response),
{
}

/// Answers never reorder an operation: the script stays what it was, and the
/// number of acknowledged frames grows by at most one per answer and never
/// passes the end of the script.
pub proof fn lemma_progress_in_order(progress: Progress, dialect: Dialect, responses: Seq<Seq<u8>>)
    requires
        progress.acknowledged <= progress.script.len(),
    ensures
        progress.after_responses(dialect, responses).script == progress.script,
        progress.acknowledged <= progress.after_responses(dialect, responses).acknowledged
            <= progress.script.len(),
        progress.after_responses(dialect, responses).acknowledged <= progress.acknowledged
            + responses.len(),
        progress.failure is Some ==> progress.after_responses(dialect, responses) == progress,
    decreases responses.len(),
{
    if responses.len() > 0 {
        lemma_progress_in_order(progress, dialect, responses.drop_last());
    }
}

/// With a keyboard that acknowledges every frame, an operation that has not
/// started succeeds after exactly as many exchanges as its script has frames.
pub proof fn lemma_all_acknowledged_succeeds(
    script: Seq<Seq<u8>>,
    dialect: Dialect,
    responses: Seq<Seq<u8>>,
)
    requires
        responses.len() <= script.len(),
        forall|i: int| 0 <= i < responses.len() ==> acknowledges(dialect, script[i], responses[i]),
    ensures
        (Progress { script, acknowledged: 0, failure: None }).after_responses(dialect, responses)
            == (Progress { script, acknowledged: responses.len(), failure: None }),
        responses.len() == script.len() ==> (Progress {
            script,
            acknowledged: 0,
            failure: None,
        }).after_responses(dialect, responses).succeeded(),
    decreases responses.len(),
{
    if responses.len() > 0 {
        lemma_all_acknowledged_succeeds(script, dialect, responses.drop_last());
    }
}

/// The first answer that is no acknowledgement ends the operation where it
/// stands: the frames before it were acknowledged, its own frame and all later
/// ones are not, and the failure is [`ProtocolError::UpdateCommandFailed`].
pub proof fn lemma_first_refusal_ends(
    script: Seq<Seq<u8>>,
    dialect: Dialect,
    responses: Seq<Seq<u8>>,
    refused: int,
)
    requires
        0 <= refused < responses.len(),
        refused < script.len(),
        forall|i: int| 0 <= i < refused ==> acknowledges(dialect, script[i], responses[i]),
        !acknowledges(dialect, script[refused], responses[refused]),
    ensures
        (Progress { script, acknowledged: 0, failure: None }).after_responses(dialect, responses)
            == (Progress {
            script,
            acknowledged: refused as nat,
            failure: Some(ProtocolError::UpdateCommandFailed),
        }),
    decreases responses.len(),
{
    let start = Progress { script, acknowledged: 0, failure: None };
    if responses.len() == refused + 1 {
        lemma_all_acknowledged_succeeds(script, dialect, responses.drop_last());
    } else {
        lemma_first_refusal_ends(script, dialect, responses.drop_last(), refused);
    }
}

} // verus!
