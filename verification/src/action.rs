//! Actions of a push rule, and the decision that a list of actions amounts to.

use vstd::prelude::*;

verus! {

/// A presentation hint that a rule attaches to a notification.
#[derive(Clone, Debug, PartialEq, Eq)]
pub enum Tweak {
    /// The sound to play when the notification arrives.
    Sound(String),
    /// Whether the event is to be highlighted.
    Highlight(bool),
}

/// The mathematical value of a [`Tweak`].
pub enum TweakView {
    Sound(Seq<char>),
    Highlight(bool),
}

impl View for Tweak {
    type V = TweakView;

    open spec fn view(&self) -> TweakView {
        match self {
            Tweak::Sound(name) => TweakView::Sound(name@),
            Tweak::Highlight(on) => TweakView::Highlight(*on),
        }
    }
}

impl Tweak {
    /// The highlight tweak with the given value. A highlight tweak that
    /// comes without a value switches the highlight on.
    pub fn highlight(value: Option<bool>) -> (tweak: Tweak)
        ensures
            tweak@ == TweakView::Highlight(
                match value {
                    Some(on) => on,
                    None => true,
                },
            ),
    {
        match value {
            Some(on) => Tweak::Highlight(on),
            None => Tweak::Highlight(true),
        }
    }
}

/// One step of what a rule does once it has matched.
#[derive(Clone, Debug, PartialEq, Eq)]
pub enum Action {
    /// Notify the user.
    Notify,
    /// Do not notify the user.
    DontNotify,
    /// Notify the user, possibly together with other events. Deprecated;
    /// it counts as `Notify`.
    Coalesce,
    /// Attach a tweak to the notification.
    SetTweak(Tweak),
}

/// The mathematical value of an [`Action`].
pub enum ActionView {
    Notify,
    DontNotify,
    Coalesce,
    SetTweak(TweakView),
}

impl View for Action {
    type V = ActionView;

    open spec fn view(&self) -> ActionView {
        match self {
            Action::Notify => ActionView::Notify,
            Action::DontNotify => ActionView::DontNotify,
            Action::Coalesce => ActionView::Coalesce,
            Action::SetTweak(tweak) => ActionView::SetTweak(tweak@),
        }
    }
}

/// The values of a list of actions, in order.
pub open spec fn action_views(actions: Seq<Action>) -> Seq<ActionView> {
    actions.map_values(|a: Action| a@)
}

/// What a matching rule decides: whether to notify, and with which tweaks.
///
/// The two tweaks are the whole tweak mapping: `sound` is the value under
/// the name "sound", `highlight` the value under "highlight", and `None`
/// says that the name is not set.
#[derive(Clone, Debug, PartialEq, Eq)]
pub struct Decision {
    pub notify: bool,
    pub sound: Option<String>,
    pub highlight: Option<bool>,
}

/// The mathematical value of a [`Decision`].
pub struct DecisionView {
    pub notify: bool,
    pub sound: Option<Seq<char>>,
    pub highlight: Option<bool>,
}

impl View for Decision {
    type V = DecisionView;

    open spec fn view(&self) -> DecisionView {
        DecisionView {
            notify: self.notify,
            sound: match self.sound {
                Some(name) => Some(name@),
                None => None,
            },
            highlight: self.highlight,
        }
    }
}

impl DecisionView {
    /// The decision of an empty action list: no notification, no tweaks.
    pub open spec fn silent() -> DecisionView {
        DecisionView { notify: false, sound: None, highlight: None }
    }

    /// The tweaks as a mapping from the name of a tweak to its value.
    pub open spec fn tweaks(self) -> Map<Seq<char>, TweakView> {
        let sound = match self.sound {
            Some(name) => Map::<Seq<char>, TweakView>::empty().insert(
                "sound"@,
                TweakView::Sound(name),
            ),
            None => Map::<Seq<char>, TweakView>::empty(),
        };
        match self.highlight {
            Some(on) => sound.insert("highlight"@, TweakView::Highlight(on)),
            None => sound,
        }
    }

    /// The decision after one more action.
    ///
    /// `Notify` and `Coalesce` switch the notification on, `DontNotify`
    /// switches it off, and a tweak replaces the value under its name.
    pub open spec fn then_apply(self, action: ActionView) -> DecisionView {
        match action {
            ActionView::Notify => DecisionView { notify: true, ..self },
            ActionView::Coalesce => DecisionView { notify: true, ..self },
            ActionView::DontNotify => DecisionView { notify: false, ..self },
            ActionView::SetTweak(TweakView::Sound(name)) => DecisionView {
                sound: Some(name),
                ..self
            },
            ActionView::SetTweak(TweakView::Highlight(on)) => DecisionView {
                highlight: Some(on),
                ..self
            },
        }
    }
}

/// The decision that a list of actions amounts to, reading it from the
/// first action to the last: of several actions that set the same thing,
/// the last one wins.
pub open spec fn resolve_actions(actions: Seq<ActionView>) -> DecisionView
    decreases actions.len(),
{
    if actions.len() == 0 {
        DecisionView::silent()
    } else {
        resolve_actions(actions.drop_last()).then_apply(actions.last())
    }
}

impl ActionView {
    /// Whether the action says whether to notify.
    pub open spec fn is_signal(self) -> bool {
        self is Notify || self is Coalesce || self is DontNotify
    }

    /// Whether the action switches the notification on.
    pub open spec fn is_notifying(self) -> bool {
        self is Notify || self is Coalesce
    }

    /// Whether the action sets the sound.
    pub open spec fn sets_sound(self) -> bool {
        self matches ActionView::SetTweak(TweakView::Sound(_))
    }

    /// Whether the action sets the highlight.
    pub open spec fn sets_highlight(self) -> bool {
        self matches ActionView::SetTweak(TweakView::Highlight(_))
    }
}

/// Resolves the actions of a rule into a decision.
pub fn resolve(actions: &Vec<Action>) -> (decision: Decision)
    ensures
        decision@ == resolve_actions(action_views(actions@)),
{
    let mut decision = Decision { notify: false, sound: None, highlight: None };
    let mut i: usize = 0;
    while i < actions.len()
        invariant
            i <= actions.len(),
            decision@ == resolve_actions(action_views(actions@).take(i as int)),
        decreases actions.len() - i,
    {
        proof {
            let all = action_views(actions@);
            assert(all.take(i + 1).drop_last() =~= all.take(i as int));
        }
        match &actions[i] {
            Action::Notify => {
                decision.notify = true;
            },
            Action::Coalesce => {
                decision.notify = true;
            },
            Action::DontNotify => {
                decision.notify = false;
            },
            Action::SetTweak(Tweak::Sound(name)) => {
                decision.sound = Some(name.clone());
            },
            Action::SetTweak(Tweak::Highlight(on)) => {
                decision.highlight = Some(*on);
            },
        }
        i += 1;
    }
    proof {
        let all = action_views(actions@);
        assert(all.take(actions.len() as int) =~= all);
    }
    decision
}

/// The last word on notifying wins: the list notifies exactly where the
/// last of its actions that say whether to notify switches the
/// notification on.
pub proof fn lemma_last_signal_decides(actions: Seq<ActionView>, at: int)
    requires
        0 <= at < actions.len(),
        actions[at].is_signal(),
        forall|j: int| at < j < actions.len() ==> !(#[trigger] actions[j]).is_signal(),
    ensures
        resolve_actions(actions).notify == actions[at].is_notifying(),
    decreases actions.len(),
{
    if at < actions.len() - 1 {
        assert(!actions.last().is_signal());
        lemma_last_signal_decides(actions.drop_last(), at);
    }
}

/// A list in which no action says whether to notify does not notify.
pub proof fn lemma_no_signal_no_notification(actions: Seq<ActionView>)
    requires
        forall|j: int| 0 <= j < actions.len() ==> !(#[trigger] actions[j]).is_signal(),
    ensures
        !resolve_actions(actions).notify,
    decreases actions.len(),
{
    if actions.len() > 0 {
        assert(!actions.last().is_signal());
        lemma_no_signal_no_notification(actions.drop_last());
    }
}

/// A list without `DontNotify` notifies exactly where it holds `Notify` or
/// `Coalesce`.
pub proof fn lemma_resolve_notify_plain(actions: Seq<ActionView>)
    requires
        forall|j: int| 0 <= j < actions.len() ==> !((#[trigger] actions[j]) is DontNotify),
    ensures
        resolve_actions(actions).notify <==> exists|i: int|
            0 <= i < actions.len() && (#[trigger] actions[i]).is_notifying(),
    decreases actions.len(),
{
    if actions.len() > 0 {
        let init = actions.drop_last();
        assert(!(actions.last() is DontNotify));
        lemma_resolve_notify_plain(init);
        if resolve_actions(actions).notify && !actions.last().is_notifying() {
            let i = choose|i: int| 0 <= i < init.len() && (#[trigger] init[i]).is_notifying();
            assert(actions[i].is_notifying());
        }
        if !resolve_actions(actions).notify {
            assert forall|i: int| 0 <= i < actions.len() implies !(
            #[trigger] actions[i]).is_notifying() by {
                if i < init.len() {
                    assert(!init[i].is_notifying());
                }
            }
        }
    }
}

/// The last sound wins: the decision has the sound of the last action that
/// sets one.
pub proof fn lemma_last_sound_decides(actions: Seq<ActionView>, at: int, name: Seq<char>)
    requires
        0 <= at < actions.len(),
        actions[at] == ActionView::SetTweak(TweakView::Sound(name)),
        forall|j: int| at < j < actions.len() ==> !(#[trigger] actions[j]).sets_sound(),
    ensures
        resolve_actions(actions).sound == Some(name),
    decreases actions.len(),
{
    if at < actions.len() - 1 {
        assert(!actions.last().sets_sound());
        lemma_last_sound_decides(actions.drop_last(), at, name);
    }
}

/// A list in which no action sets a sound decides on none.
pub proof fn lemma_no_sound(actions: Seq<ActionView>)
    requires
        forall|j: int| 0 <= j < actions.len() ==> !(#[trigger] actions[j]).sets_sound(),
    ensures
        resolve_actions(actions).sound is None,
    decreases actions.len(),
{
    if actions.len() > 0 {
        assert(!actions.last().sets_sound());
        lemma_no_sound(actions.drop_last());
    }
}

/// The last highlight wins: the decision has the highlight of the last
/// action that sets one.
pub proof fn lemma_last_highlight_decides(actions: Seq<ActionView>, at: int, on: bool)
    requires
        0 <= at < actions.len(),
        actions[at] == ActionView::SetTweak(TweakView::Highlight(on)),
        forall|j: int| at < j < actions.len() ==> !(#[trigger] actions[j]).sets_highlight(),
    ensures
        resolve_actions(actions).highlight == Some(on),
    decreases actions.len(),
{
    if at < actions.len() - 1 {
        assert(!actions.last().sets_highlight());
        lemma_last_highlight_decides(actions.drop_last(), at, on);
    }
}

/// A list in which no action sets the highlight decides on none.
pub proof fn lemma_no_highlight(actions: Seq<ActionView>)
    requires
        forall|j: int| 0 <= j < actions.len() ==> !(#[trigger] actions[j]).sets_highlight(),
    ensures
        resolve_actions(actions).highlight is None,
    decreases actions.len(),
{
    if actions.len() > 0 {
        assert(!actions.last().sets_highlight());
        lemma_no_highlight(actions.drop_last());
    }
}

} // verus!
