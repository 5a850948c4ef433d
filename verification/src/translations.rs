//! Which parameter providers get the English translations.
//!
//! The catalog file is optional. When it exists, it is parsed for the
//! renderer's provider and, only once that succeeded, parsed again for the
//! battle controller's provider; a failed open or parse stops quietly. When it
//! does not exist, a warning is logged. The caller opens and parses the file
//! (`gettext::Catalog::parse` reads from a reader) and installs the catalogs;
//! this decides what is done next.

use vstd::prelude::*;

verus! {

/// Where installing the translations stands.
#[derive(Clone, Copy, Debug, PartialEq, Eq, Structural)]
pub enum TranslationStage {
    /// Waiting to learn whether the catalog file exists.
    Checking,
    /// The catalog is being parsed for the renderer's provider.
    ParsingFirst,
    /// The catalog is being parsed again for the controller's provider.
    ParsingSecond,
    /// Done.
    Finished,
}

/// What the caller reports after a step.
#[derive(Clone, Copy, Debug, PartialEq, Eq, Structural)]
pub enum TranslationEvent {
    /// Whether the catalog file exists.
    Checked(bool),
    /// Whether opening and parsing the catalog gave a catalog.
    Parsed(bool),
}

/// What the caller is to do next.
#[derive(Clone, Copy, Debug, PartialEq, Eq, Structural)]
pub enum TranslationAction {
    /// Open and parse the catalog for the renderer's provider.
    ParseFirst,
    /// Install the parsed catalog on the renderer's provider, then open and
    /// parse the catalog again for the controller's provider.
    InstallFirstAndParseSecond,
    /// Install the parsed catalog on the controller's provider; done.
    InstallSecond,
    /// Log that the translations were not found; done.
    WarnMissing,
    /// Nothing more to do.
    Done,
}

/// Whether `e` answers the step pending at `stage`.
pub open spec fn translation_accepts(stage: TranslationStage, e: TranslationEvent) -> bool {
    match stage {
        TranslationStage::Checking => e is Checked,
        TranslationStage::ParsingFirst | TranslationStage::ParsingSecond => e is Parsed,
        TranslationStage::Finished => false,
    }
}

/// One step of installing the translations.
pub open spec fn translation_next(stage: TranslationStage, e: TranslationEvent) -> (TranslationStage, TranslationAction) {
    match (stage, e) {
        (TranslationStage::Checking, TranslationEvent::Checked(true)) => (
            TranslationStage::ParsingFirst,
            TranslationAction::ParseFirst,
        ),
        (TranslationStage::Checking, _) => (TranslationStage::Finished, TranslationAction::WarnMissing),
        (TranslationStage::ParsingFirst, TranslationEvent::Parsed(true)) => (
            TranslationStage::ParsingSecond,
            TranslationAction::InstallFirstAndParseSecond,
        ),
        (TranslationStage::ParsingSecond, TranslationEvent::Parsed(true)) => (
            TranslationStage::Finished,
            TranslationAction::InstallSecond,
        ),
        _ => (TranslationStage::Finished, TranslationAction::Done),
    }
}

/// The actions taken from `stage` when the outcomes are `events`; the run
/// stops at the first event that does not answer the pending step.
pub open spec fn translation_run(stage: TranslationStage, events: Seq<TranslationEvent>) -> Seq<TranslationAction>
    decreases events.len(),
{
    if events.len() == 0 || !translation_accepts(stage, events[0]) {
        Seq::empty()
    } else {
        let (s2, a) = translation_next(stage, events[0]);
        seq![a].add(translation_run(s2, events.drop_first()))
    }
}

/// Installing the translations.
pub struct TranslationLoad {
    stage: TranslationStage,
}

impl TranslationLoad {
    /// A load that has not looked for the file yet.
    pub fn new() -> (l: TranslationLoad)
        ensures
            l.stage() == TranslationStage::Checking,
    {
        TranslationLoad { stage: TranslationStage::Checking }
    }

    /// Where the load stands.
    pub closed spec fn stage(&self) -> TranslationStage {
        self.stage
    }

    /// Whether `event` answers the pending step.
    pub fn accepts(&self, event: TranslationEvent) -> (r: bool)
        ensures
            r == translation_accepts(self.stage(), event),
    {
        match self.stage {
            TranslationStage::Checking => matches!(event, TranslationEvent::Checked(_)),
            TranslationStage::ParsingFirst | TranslationStage::ParsingSecond => matches!(
                event,
                TranslationEvent::Parsed(_)
            ),
            TranslationStage::Finished => false,
        }
    }

    /// Takes the outcome of the pending step and gives the next one.
    pub fn step(&mut self, event: TranslationEvent) -> (a: TranslationAction)
        requires
            translation_accepts(old(self).stage(), event),
        ensures
            (final(self).stage(), a) == translation_next(old(self).stage(), event),
    {
        match (self.stage, event) {
            (TranslationStage::Checking, TranslationEvent::Checked(true)) => {
                self.stage = TranslationStage::ParsingFirst;
                TranslationAction::ParseFirst
            },
            (TranslationStage::Checking, _) => {
                self.stage = TranslationStage::Finished;
                TranslationAction::WarnMissing
            },
            (TranslationStage::ParsingFirst, TranslationEvent::Parsed(true)) => {
                self.stage = TranslationStage::ParsingSecond;
                TranslationAction::InstallFirstAndParseSecond
            },
            (TranslationStage::ParsingSecond, TranslationEvent::Parsed(true)) => {
                self.stage = TranslationStage::Finished;
                TranslationAction::InstallSecond
            },
            _ => {
                self.stage = TranslationStage::Finished;
                TranslationAction::Done
            },
        }
    }
}

/// The stage a load is in right after it asked for `a`.
pub open spec fn stage_after(a: TranslationAction) -> TranslationStage {
    match a {
        TranslationAction::ParseFirst => TranslationStage::ParsingFirst,
        TranslationAction::InstallFirstAndParseSecond => TranslationStage::ParsingSecond,
        _ => TranslationStage::Finished,
    }
}

/// Whether a load at `stage` may ask for `a` next.
pub open spec fn may_ask(stage: TranslationStage, a: TranslationAction) -> bool {
    match stage {
        TranslationStage::Checking => a is ParseFirst || a is WarnMissing,
        TranslationStage::ParsingFirst => a is InstallFirstAndParseSecond || a is Done,
        TranslationStage::ParsingSecond => a is InstallSecond || a is Done,
        TranslationStage::Finished => false,
    }
}

proof fn lemma_translation_run(stage: TranslationStage, events: Seq<TranslationEvent>)
    ensures
        translation_run(stage, events).len() > 0 ==> may_ask(stage, translation_run(stage, events)[0])
            && translation_run(stage, events)[0] == translation_next(stage, events[0]).1,
        forall|i: int|
            0 < i < translation_run(stage, events).len() ==> may_ask(
                stage_after(#[trigger] translation_run(stage, events)[i - 1]),
                translation_run(stage, events)[i],
            ),
    decreases events.len(),
{
    if events.len() > 0 && translation_accepts(stage, events[0]) {
        let (s2, a) = translation_next(stage, events[0]);
        let rest = events.drop_first();
        lemma_translation_run(s2, rest);
        let t = translation_run(stage, events);
        let r = translation_run(s2, rest);
        assert(t == seq![a].add(r));
        assert(s2 == stage_after(a));
        assert forall|i: int| 0 < i < t.len() implies may_ask(
            stage_after(#[trigger] t[i - 1]),
            t[i],
        ) by {
            assert(t[i] == r[i - 1]);
            if i > 1 {
                assert(t[i - 1] == r[i - 2]);
            }
        }
    }
}

/// Law: installing the translations runs in order. The file is parsed for the
/// renderer's provider first; the controller's provider gets a catalog only
/// right after the renderer's provider got one; a missing file is only warned
/// about; and each action follows from the one before it.
pub proof fn law_translation_steps_in_order(events: Seq<TranslationEvent>)
    ensures
        ({
            let t = translation_run(TranslationStage::Checking, events);
            &&& t.len() > 0 ==> (t[0] is ParseFirst || t[0] is WarnMissing)
            &&& t.len() > 0 && t[0] is WarnMissing ==> events[0] == TranslationEvent::Checked(false)
            &&& forall|i: int|
                0 < i < t.len() ==> may_ask(stage_after(#[trigger] t[i - 1]), t[i])
            &&& forall|i: int|
                0 <= i < t.len() && (#[trigger] t[i]) is InstallSecond ==> i > 0 && t[i - 1]
                    is InstallFirstAndParseSecond
        }),
{
    lemma_translation_run(TranslationStage::Checking, events);
    let t = translation_run(TranslationStage::Checking, events);
    assert forall|i: int| 0 <= i < t.len() && (#[trigger] t[i]) is InstallSecond implies i > 0
        && t[i - 1] is InstallFirstAndParseSecond by {
        if i > 0 {
            assert(may_ask(stage_after(t[i - 1]), t[i]));
        }
    }
}

} // verus!
