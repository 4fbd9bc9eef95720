use crate::file::{describes, text_of, upload_vars, FileInfo, PartHeaders};
use crate::result::{MultipartError, MultipartValidationError};
use vstd::prelude::*;

verus! {

/// What to capture: the form field, and the constraints its file must meet.
pub struct UploadData<'a> {
    /// The form field (`name` of `content-disposition`) to capture.
    pub field: &'a str,
    /// The fewest bytes the file may have.
    pub lower_size: usize,
    /// The most bytes the file may have, if bounded.
    pub upper_size: Option<usize>,
    /// Content types that are refused.
    pub allowed_mimes: Vec<&'a str>,
}

impl<'a> UploadData<'a> {
    /// Captures `field` under no constraint.
    pub fn new(field: &'a str) -> (r: UploadData<'a>)
        ensures
            r.field@ == field@,
            r.lower_size == 0,
            r.upper_size is None,
            r.allowed_mimes@.len() == 0,
    {
        UploadData { field, lower_size: 0, upper_size: None, allowed_mimes: Vec::new() }
    }
}

/// `t` is one of the content types listed in `ud.allowed_mimes`.
pub open spec fn listed(ud: UploadData, t: Seq<char>) -> bool {
    exists|i: int| 0 <= i < ud.allowed_mimes@.len() && (#[trigger] ud.allowed_mimes@[i])@ == t
}

/// Where a capture stands.
pub enum CaptureState {
    /// Looking for the part of the requested field.
    Seeking,
    /// Reading the chunks of the requested field's part, `total` bytes so far.
    Reading { info: FileInfo, total: usize },
    /// Over, accepted or failed.
    Done,
}

/// What the multipart body yielded next.
pub enum CaptureEvent {
    /// A part begins, with these headers.
    Part(PartHeaders),
    /// The part being read yielded a chunk of this many bytes.
    Chunk(usize),
    /// The part being read has no more chunks.
    PartEnd,
    /// The body has no more parts.
    End,
}

/// What the driver of a capture does next.
pub enum CaptureAction {
    /// Skip the current part and take the next one.
    NextPart,
    /// Start reading the chunks of the current part.
    ReadPart,
    /// Keep the chunk just read, and read the next one.
    KeepChunk,
    /// The file is captured: the chunks kept are its bytes, this its
    /// metadata.
    Accept(FileInfo),
    /// The capture fails with this error; the chunks kept are dropped.
    Fail(MultipartError),
}

/// `state` stays within the bounds of `ud`.
pub open spec fn state_wf(ud: UploadData, state: CaptureState) -> bool {
    match state {
        CaptureState::Reading { total, .. } => match ud.upper_size {
            Some(u) => total <= u,
            None => true,
        },
        _ => true,
    }
}

/// `event` can come in `state`: parts and the end of the body while
/// seeking, chunks and the end of the part while reading. Without an upper
/// bound, the total of the chunks must fit in `usize`.
pub open spec fn accepts(ud: UploadData, state: CaptureState, event: CaptureEvent) -> bool {
    match state {
        CaptureState::Seeking => event is Part || event is End,
        CaptureState::Reading { total, .. } => match event {
            CaptureEvent::Chunk(n) => ud.upper_size is Some || total + n <= usize::MAX,
            CaptureEvent::PartEnd => true,
            _ => false,
        },
        CaptureState::Done => false,
    }
}

/// Whether `t` is listed in `ud.allowed_mimes`.
fn is_listed(ud: &UploadData, t: &String) -> (r: bool)
    ensures
        r == listed(*ud, t@),
{
    let mut i: usize = 0;
    while i < ud.allowed_mimes.len()
        invariant
            i <= ud.allowed_mimes@.len(),
            forall|j: int| 0 <= j < i ==> (#[trigger] ud.allowed_mimes@[j])@ != t@,
        decreases ud.allowed_mimes@.len() - i,
    {
        let m = ud.allowed_mimes[i].to_owned();
        if m == *t {
            return true;
        }
        i = i + 1;
    }
    false
}

/// Takes one step of a capture: from the state and what the body yielded,
/// the next state and what to do.
///
/// While seeking, a part whose headers cannot be read fails the capture; a
/// part of another field is skipped; a part of the requested field whose
/// content type is listed in `allowed_mimes` fails with `InvalidMimeType`,
/// and is read otherwise. The end of the body fails with `NotUploaded`.
/// While reading, a chunk that takes the total over the upper bound fails
/// with `UpperSizeError`, and is kept otherwise; at the end of the part, a
/// total under the lower bound fails with `LowerSizeError`, and otherwise
/// the file is accepted with its size set to the total.
pub fn step(ud: &UploadData, state: CaptureState, event: CaptureEvent) -> (r: (
    CaptureState,
    CaptureAction,
))
    requires
        state_wf(*ud, state),
        accepts(*ud, state, event),
    ensures
        state_wf(*ud, r.0),
        state is Seeking && event is End ==> r.0 is Done && (r.1 matches CaptureAction::Fail(
            MultipartError::NotUploaded,
        )),
        state is Seeking && event is Part ==> {
            let h = event->Part_0;
            match upload_vars(h) {
                None => {
                    &&& r.0 is Done
                    &&& r.1 is Fail
                    &&& (r.1 matches CaptureAction::Fail(MultipartError::InvalidContentType))
                        <==> text_of(h.content_type) is None
                    &&& text_of(h.content_type) is Some ==> (r.1 matches CaptureAction::Fail(
                        MultipartError::InvalidContentDisposition,
                    ))
                },
                Some(vars) => if vars[seq!['n', 'a', 'm', 'e']] != ud.field@ {
                    r.0 is Seeking && r.1 is NextPart
                } else if listed(*ud, text_of(h.content_type)->0) {
                    r.0 is Done && (r.1 matches CaptureAction::Fail(
                        MultipartError::ValidationError(MultipartValidationError::InvalidMimeType),
                    ))
                } else {
                    &&& r.0 matches CaptureState::Reading { info, total } && total == 0
                        && describes(info, h)
                    &&& r.1 is ReadPart
                },
            }
        },
        state is Reading && event is Chunk ==> {
            let info = state->Reading_info;
            let total = state->Reading_total;
            let n = event->Chunk_0;
            if ud.upper_size matches Some(u) && total + n > u {
                r.0 is Done && (r.1 matches CaptureAction::Fail(
                    MultipartError::ValidationError(MultipartValidationError::UpperSizeError),
                ))
            } else {
                r.0 == (CaptureState::Reading { info, total: (total + n) as usize })
                    && r.1 is KeepChunk
            }
        },
        state is Reading && event is PartEnd ==> {
            let info = state->Reading_info;
            let total = state->Reading_total;
            if total < ud.lower_size {
                r.0 is Done && (r.1 matches CaptureAction::Fail(
                    MultipartError::ValidationError(MultipartValidationError::LowerSizeError),
                ))
            } else {
                r.0 is Done && r.1 == CaptureAction::Accept(FileInfo { size: total, ..info })
            }
        },
{
    match state {
        CaptureState::Seeking => match event {
            CaptureEvent::Part(h) => {
                let info = match FileInfo::create(&h) {
                    Ok(info) => info,
                    Err(e) => return (CaptureState::Done, CaptureAction::Fail(e)),
                };
                let wanted = ud.field.to_owned();
                if info.field != wanted {
                    return (CaptureState::Seeking, CaptureAction::NextPart);
                }
                if is_listed(ud, &info.content_type) {
                    return (
                        CaptureState::Done,
                        CaptureAction::Fail(
                            MultipartError::ValidationError(
                                MultipartValidationError::InvalidMimeType,
                            ),
                        ),
                    );
                }
                (CaptureState::Reading { info, total: 0 }, CaptureAction::ReadPart)
            },
            _ => (CaptureState::Done, CaptureAction::Fail(MultipartError::NotUploaded)),
        },
        CaptureState::Reading { info, total } => match event {
            CaptureEvent::Chunk(n) => {
                let over = match ud.upper_size {
                    Some(u) => n > u - total,
                    None => false,
                };
                if over {
                    (
                        CaptureState::Done,
                        CaptureAction::Fail(
                            MultipartError::ValidationError(
                                MultipartValidationError::UpperSizeError,
                            ),
                        ),
                    )
                } else {
                    (CaptureState::Reading { info, total: total + n }, CaptureAction::KeepChunk)
                }
            },
            _ => {
                if total < ud.lower_size {
                    (
                        CaptureState::Done,
                        CaptureAction::Fail(
                            MultipartError::ValidationError(
                                MultipartValidationError::LowerSizeError,
                            ),
                        ),
                    )
                } else {
                    (CaptureState::Done, CaptureAction::Accept(FileInfo { size: total, ..info }))
                }
            },
        },
        CaptureState::Done => (CaptureState::Done, CaptureAction::Fail(MultipartError::NotUploaded)),
    }
}

} // verus!
