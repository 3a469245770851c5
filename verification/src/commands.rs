//! The command buffers of one frame, kept apart by who recorded them.

use vstd::prelude::*;

verus! {

/// Who records into a frame.
#[derive(Clone, Copy, Debug, PartialEq, Eq, Structural)]
pub enum Contributor {
    /// The application: the base layer.
    Application,
    /// The overlay: drawn on top of what the application left.
    Overlay,
}

impl Contributor {
    /// Only the base layer may clear the target: a later layer has to load
    /// what is there.
    pub open spec fn clears_target(self) -> bool {
        self == Contributor::Application
    }

    /// Whether this contributor's pass may clear the target, instead of
    /// loading what earlier passes wrote.
    pub fn may_clear(self) -> (clear: bool)
        ensures
            clear == self.clears_target(),
    {
        match self {
            Contributor::Application => true,
            Contributor::Overlay => false,
        }
    }
}

/// What a command list stands for: the buffers of each contributor, in the
/// order in which they were recorded.
pub struct Contributions<B> {
    pub application: Seq<B>,
    pub overlay: Seq<B>,
}

impl<B> Contributions<B> {
    /// Nothing recorded.
    pub open spec fn empty() -> Contributions<B> {
        Contributions { application: Seq::empty(), overlay: Seq::empty() }
    }

    /// What goes to the queue: the application's buffers, then the
    /// overlay's.
    pub open spec fn submission(self) -> Seq<B> {
        self.application + self.overlay
    }

    /// Where the application's buffer `i` stands in the submission.
    pub open spec fn application_position(self, i: int) -> int {
        i
    }

    /// Where the overlay's buffer `j` stands in the submission.
    pub open spec fn overlay_position(self, j: int) -> int {
        self.application.len() + j
    }

    /// The contributions with more buffers recorded by one contributor.
    pub open spec fn recorded(self, from: Contributor, buffers: Seq<B>) -> Contributions<B> {
        match from {
            Contributor::Application => Contributions {
                application: self.application + buffers,
                overlay: self.overlay,
            },
            Contributor::Overlay => Contributions {
                application: self.application,
                overlay: self.overlay + buffers,
            },
        }
    }
}

/// The command buffers recorded for one frame. Contributors may record in
/// any order; the list is handed to the queue with the application's
/// buffers first.
pub struct CommandList<B> {
    application: Vec<B>,
    overlay: Vec<B>,
}

impl<B> View for CommandList<B> {
    type V = Contributions<B>;

    closed spec fn view(&self) -> Contributions<B> {
        Contributions { application: self.application@, overlay: self.overlay@ }
    }
}

impl<B> CommandList<B> {
    /// An empty list.
    pub fn new() -> (list: CommandList<B>)
        ensures
            list@ == Contributions::<B>::empty(),
    {
        CommandList { application: Vec::new(), overlay: Vec::new() }
    }

    /// Whether nothing was recorded.
    pub fn is_empty(&self) -> (empty: bool)
        ensures
            empty == (self@.submission().len() == 0),
    {
        self.application.is_empty() && self.overlay.is_empty()
    }

    /// Records one buffer for a contributor.
    pub fn push(&mut self, from: Contributor, buffer: B)
        ensures
            final(self)@ == old(self)@.recorded(from, seq![buffer]),
    {
        match from {
            Contributor::Application => {
                self.application.push(buffer);
                assert(self.application@ =~= old(self).application@ + seq![buffer]);
            },
            Contributor::Overlay => {
                self.overlay.push(buffer);
                assert(self.overlay@ =~= old(self).overlay@ + seq![buffer]);
            },
        }
    }

    /// Records a run of buffers for a contributor, in their order.
    pub fn extend(&mut self, from: Contributor, buffers: Vec<B>)
        ensures
            final(self)@ == old(self)@.recorded(from, buffers@),
    {
        let mut buffers = buffers;
        match from {
            Contributor::Application => {
                self.application.append(&mut buffers);
            },
            Contributor::Overlay => {
                self.overlay.append(&mut buffers);
            },
        }
    }

    /// Hands out what goes to the queue, in submission order, and leaves the
    /// list empty for the next frame.
    pub fn take_submission(&mut self) -> (submission: Vec<B>)
        ensures
            submission@ == old(self)@.submission(),
            final(self)@ == Contributions::<B>::empty(),
    {
        let mut submission: Vec<B> = Vec::new();
        submission.append(&mut self.application);
        submission.append(&mut self.overlay);
        assert(submission@ =~= old(self)@.submission());
        submission
    }
}

/// In a submission every buffer of the application stands before every
/// buffer of the overlay, each contributor's buffers keep their order, and
/// nothing else is submitted.
pub proof fn lemma_application_before_overlay<B>(list: Contributions<B>)
    ensures
        list.submission().len() == list.application.len() + list.overlay.len(),
        forall|i: int|
            0 <= i < list.application.len() ==> #[trigger] list.submission()[
                list.application_position(i)
            ] == list.application[i],
        forall|j: int|
            0 <= j < list.overlay.len() ==> #[trigger] list.submission()[list.overlay_position(j)]
                == list.overlay[j],
        forall|i: int, j: int|
            0 <= i < list.application.len() && 0 <= j < list.overlay.len()
                ==> #[trigger] list.application_position(i) < #[trigger] list.overlay_position(j),
{
}

} // verus!
