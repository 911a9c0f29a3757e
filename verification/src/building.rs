//! A build in progress: the calls it makes, and how far a driver has come
//! with them.

use crate::call::{views, Call, CallView};
use vstd::prelude::*;

verus! {

/// What a [`Build`] is: the calls it makes from first to last, how many of
/// them have been made, and what the rendering library answered to the last
/// image button among those.
pub struct BuildView {
    pub calls: Seq<CallView>,
    pub made: nat,
    pub clicked: bool,
}

impl BuildView {
    /// The build that is to make `calls` and has made none of them yet.
    pub open spec fn start(calls: Seq<CallView>) -> BuildView {
        BuildView { calls, made: 0, clicked: false }
    }

    /// The call to make next, if one is left.
    pub open spec fn pending(self) -> Option<CallView> {
        if self.made < self.calls.len() {
            Some(self.calls[self.made as int])
        } else {
            None
        }
    }

    /// Whether every call has been made.
    pub open spec fn finished(self) -> bool {
        self.made >= self.calls.len()
    }

    /// The build after its pending call has been made and the rendering
    /// library has answered `answer`. The answer is kept if the call was an
    /// image button, and dropped otherwise. A finished build stays as it is.
    pub open spec fn resume(self, answer: bool) -> BuildView {
        match self.pending() {
            Some(call) => BuildView {
                calls: self.calls,
                made: self.made + 1,
                clicked: if call.answers_click() {
                    answer
                } else {
                    self.clicked
                },
            },
            None => self,
        }
    }

    /// The build after it has been resumed with each of `answers` in turn.
    pub open spec fn run(self, answers: Seq<bool>) -> BuildView
        decreases answers.len(),
    {
        if answers.len() == 0 {
            self
        } else {
            self.run(answers.drop_last()).resume(answers.last())
        }
    }
}

/// The calls of one widget's build, handed out one at a time.
///
/// A driver asks for the pending call, makes it, and resumes the build with
/// the answer, until no call is pending. The build then says whether the
/// widget was clicked.
#[derive(Debug)]
pub struct Build {
    calls: Vec<Call>,
    made: usize,
    clicked: bool,
}

impl View for Build {
    type V = BuildView;

    closed spec fn view(&self) -> BuildView {
        BuildView { calls: views(self.calls@), made: self.made as nat, clicked: self.clicked }
    }
}

impl Build {
    #[verifier::type_invariant]
    spec fn in_range(&self) -> bool {
        self.made <= self.calls.len()
    }

    /// The build that is to make `calls`, in this order.
    pub fn new(calls: Vec<Call>) -> (build: Build)
        ensures
            build@ == BuildView::start(views(calls@)),
    {
        Build { calls, made: 0, clicked: false }
    }

    /// All calls of this build, those made and those still to make.
    pub fn calls(&self) -> (calls: &Vec<Call>)
        ensures
            views(calls@) == self@.calls,
    {
        &self.calls
    }

    /// How many calls have been made.
    pub fn made(&self) -> (made: usize)
        ensures
            made == self@.made,
    {
        self.made
    }

    /// The call to make next, or `None` when all have been made.
    pub fn pending(&self) -> (call: Option<&Call>)
        ensures
            match call {
                Some(c) => self@.pending() == Some(c@),
                None => self@.pending().is_none(),
            },
    {
        proof {
            use_type_invariant(self);
        }
        if self.made < self.calls.len() {
            Some(&self.calls[self.made])
        } else {
            None
        }
    }

    /// Whether every call has been made.
    pub fn is_finished(&self) -> (done: bool)
        ensures
            done == self@.finished(),
    {
        self.made >= self.calls.len()
    }

    /// Takes note that the pending call has been made and that the rendering
    /// library answered `answer`; for a call that answers nothing, any value
    /// will do.
    pub fn resume(&mut self, answer: bool)
        ensures
            final(self)@ == old(self)@.resume(answer),
    {
        proof {
            use_type_invariant(&*self);
        }
        if self.made < self.calls.len() {
            if self.calls[self.made].answers_click() {
                self.clicked = answer;
            }
            self.made = self.made + 1;
        }
    }

    /// What the rendering library answered to the last image button that was
    /// made; `false` while none was.
    pub fn clicked(&self) -> (clicked: bool)
        ensures
            clicked == self@.clicked,
    {
        self.clicked
    }
}

/// Running a build leaves its calls as they are and counts one more call as
/// made for each answer, until all are made.
pub proof fn lemma_run_progress(build: BuildView, answers: Seq<bool>)
    requires
        build.made <= build.calls.len(),
    ensures
        build.run(answers).calls == build.calls,
        build.run(answers).made == if build.made + answers.len() <= build.calls.len() {
            build.made + answers.len()
        } else {
            build.calls.len()
        },
    decreases answers.len(),
{
    if answers.len() > 0 {
        lemma_run_progress(build, answers.drop_last());
    }
}

/// A build that was handed as many answers as it has calls is finished.
pub proof fn lemma_run_finishes(calls: Seq<CallView>, answers: Seq<bool>)
    requires
        answers.len() == calls.len(),
    ensures
        BuildView::start(calls).run(answers).finished(),
        BuildView::start(calls).run(answers).calls == calls,
{
    lemma_run_progress(BuildView::start(calls), answers);
}

/// A build reports what the rendering library answered to its last image
/// button, unchanged, whatever was answered to the other calls: once the
/// call at `k` has been made, and as long as no image button after it has,
/// the build says `answers[k]`.
pub proof fn lemma_run_reports_button(
    calls: Seq<CallView>,
    answers: Seq<bool>,
    k: int,
    made: int,
)
    requires
        0 <= k < made <= answers.len() <= calls.len(),
        calls[k].answers_click(),
        forall|j: int| k < j < made ==> !(#[trigger] calls[j]).answers_click(),
    ensures
        BuildView::start(calls).run(answers.take(made)).clicked == answers[k],
    decreases made,
{
    let start = BuildView::start(calls);
    let before = answers.take(made).drop_last();
    assert(before =~= answers.take(made - 1));
    lemma_run_progress(start, before);
    assert(start.run(before).pending() == Some(calls[made - 1]));
    if made > k + 1 {
        lemma_run_reports_button(calls, answers, k, made - 1);
    }
}

/// A build without an image button among the calls made reports no click,
/// whatever was answered.
pub proof fn lemma_run_without_button(calls: Seq<CallView>, answers: Seq<bool>)
    requires
        answers.len() <= calls.len(),
        forall|j: int| 0 <= j < answers.len() ==> !(#[trigger] calls[j]).answers_click(),
    ensures
        !BuildView::start(calls).run(answers).clicked,
    decreases answers.len(),
{
    if answers.len() > 0 {
        let start = BuildView::start(calls);
        lemma_run_without_button(calls, answers.drop_last());
        lemma_run_progress(start, answers.drop_last());
        assert(start.run(answers.drop_last()).pending() == Some(calls[answers.len() - 1]));
    }
}

} // verus!
