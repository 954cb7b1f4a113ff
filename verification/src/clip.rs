//! The clip, one time-stamped and speaker-attributed transcript segment, and
//! the document: the clips in chronological order.

use vstd::prelude::*;

verus! {

/// One transcript segment. Times are whole milliseconds from the start of
/// the recording.
#[derive(Debug)]
pub struct Clip {
    pub id: usize,
    pub speaker: String,
    pub transcript: String,
    pub start_time: u64,
    pub end_time: u64,
    pub comment: String,
    pub is_manually_adjusted: bool,
}

/// What a clip denotes: its texts as character sequences, its times and
/// its id as mathematical integers.
pub struct ClipView {
    pub id: int,
    pub speaker: Seq<char>,
    pub transcript: Seq<char>,
    pub start_time: int,
    pub end_time: int,
    pub comment: Seq<char>,
    pub is_manually_adjusted: bool,
}

impl View for Clip {
    type V = ClipView;

    open spec fn view(&self) -> ClipView {
        ClipView {
            id: self.id as int,
            speaker: self.speaker@,
            transcript: self.transcript@,
            start_time: self.start_time as int,
            end_time: self.end_time as int,
            comment: self.comment@,
            is_manually_adjusted: self.is_manually_adjusted,
        }
    }
}

impl Clone for Clip {
    /// An independent copy that denotes the same clip.
    fn clone(&self) -> (c: Self)
        ensures
            c@ == self@,
    {
        Clip {
            id: self.id,
            speaker: self.speaker.clone(),
            transcript: self.transcript.clone(),
            start_time: self.start_time,
            end_time: self.end_time,
            comment: self.comment.clone(),
            is_manually_adjusted: self.is_manually_adjusted,
        }
    }
}

/// What a list of clips denotes: the view of each, in order.
pub open spec fn document(clips: Seq<Clip>) -> Seq<ClipView> {
    Seq::new(clips.len(), |i: int| clips[i]@)
}

/// What a list of documents denotes.
pub open spec fn documents(docs: Seq<Vec<Clip>>) -> Seq<Seq<ClipView>> {
    Seq::new(docs.len(), |i: int| document(docs[i]@))
}

/// An independent deep copy of a document.
pub fn clone_document(clips: &Vec<Clip>) -> (copy: Vec<Clip>)
    ensures
        document(copy@) == document(clips@),
{
    let mut copy: Vec<Clip> = Vec::new();
    let mut i: usize = 0;
    while i < clips.len()
        invariant
            i <= clips.len(),
            copy@.len() == i,
            forall|j: int| 0 <= j < i ==> (#[trigger] copy@[j])@ == clips@[j]@,
        decreases clips.len() - i,
    {
        let c = clips[i].clone();
        copy.push(c);
        i += 1;
    }
    assert(document(copy@) =~= document(clips@));
    copy
}

} // verus!
