//! Global shortcut names, the order in which shortcuts are tried at start,
//! and the steps that move the registration from one hotkey to another.
use vstd::prelude::*;

use crate::fn_hotkey::{is_modifier_hotkey, modifier_name, normalize_modifier_hotkey};
use crate::settings::{contains_str, strings_view, DEFAULT_SHORTCUT};
use crate::text::{str_eq, trim, trimmed};

verus! {

/// The canonical form of a shortcut setting: surrounding white space goes, a
/// modifier alias becomes its canonical name, and a blank value becomes the
/// default shortcut.
pub open spec fn shortcut_name(s: Seq<char>) -> Seq<char> {
    let t = trimmed(s);
    match modifier_name(t) {
        Some(m) => m,
        None => if t.len() == 0 {
            DEFAULT_SHORTCUT@
        } else {
            t
        },
    }
}

/// The canonical form of a shortcut setting.
pub fn normalize_shortcut(shortcut: &str) -> (r: String)
    ensures
        r@ == shortcut_name(shortcut@),
{
    let t = trim(shortcut);
    match normalize_modifier_hotkey(t) {
        Some(m) => m,
        None => {
            if t.is_empty() {
                DEFAULT_SHORTCUT.to_string()
            } else {
                t.to_string()
            }
        },
    }
}

proof fn lemma_default_shortcut_plain()
    ensures
        trimmed(DEFAULT_SHORTCUT@) == DEFAULT_SHORTCUT@,
        modifier_name(DEFAULT_SHORTCUT@) is None,
{
    reveal_strlit("CommandOrControl+Shift+Space");
    reveal_strlit("fn");
    reveal_strlit("globe");
    reveal_strlit("function");
    reveal_strlit("option");
    reveal_strlit("alt");
    let s = DEFAULT_SHORTCUT@;
    assert(crate::text::trim_start_spec(s) == s);
    assert(crate::text::trim_end_spec(s) == s);
    assert(crate::text::ascii_lowercase(s).len() == s.len());
}

/// A canonical shortcut is its own canonical form.
pub proof fn lemma_normalize_shortcut_idempotent(s: Seq<char>)
    ensures
        shortcut_name(shortcut_name(s)) == shortcut_name(s),
{
    let t = trimmed(s);
    crate::text::lemma_trimmed_idempotent(s);
    match modifier_name(t) {
        Some(m) => {
            crate::fn_hotkey::lemma_modifier_name_idempotent(t);
            reveal_strlit("Fn");
            reveal_strlit("Option");
            assert(crate::text::trim_start_spec(m) == m);
            assert(crate::text::trim_end_spec(m) == m);
        },
        None => {
            if t.len() == 0 {
                lemma_default_shortcut_plain();
            }
        },
    }
}

/// The shortcuts tried, after the preferred one, when it cannot be registered.
pub open spec fn fallback_shortcuts() -> Seq<Seq<char>> {
    seq![DEFAULT_SHORTCUT@, "F8"@, "F9"@, "Control+Shift+Space"@]
}

/// `first` followed by those of `fallbacks` that are not already listed.
pub open spec fn with_fallbacks(first: Seq<char>, fallbacks: Seq<Seq<char>>) -> Seq<Seq<char>>
    decreases fallbacks.len(),
{
    if fallbacks.len() == 0 {
        seq![first]
    } else {
        let rest = with_fallbacks(first, fallbacks.drop_last());
        if rest.contains(fallbacks.last()) {
            rest
        } else {
            rest.push(fallbacks.last())
        }
    }
}

fn fallback_at(k: usize) -> (s: &'static str)
    requires
        k < 4,
    ensures
        s@ == fallback_shortcuts()[k as int],
{
    match k {
        0 => DEFAULT_SHORTCUT,
        1 => "F8",
        2 => "F9",
        _ => "Control+Shift+Space",
    }
}

proof fn lemma_with_fallbacks(first: Seq<char>, fallbacks: Seq<Seq<char>>)
    ensures
        with_fallbacks(first, fallbacks).len() > 0,
        with_fallbacks(first, fallbacks)[0] == first,
        with_fallbacks(first, fallbacks).no_duplicates(),
        forall|i: int|
            0 <= i < fallbacks.len() ==> with_fallbacks(first, fallbacks).contains(
                #[trigger] fallbacks[i],
            ),
    decreases fallbacks.len(),
{
    if fallbacks.len() > 0 {
        let fs = fallbacks.drop_last();
        lemma_with_fallbacks(first, fs);
        let rest = with_fallbacks(first, fs);
        assert forall|i: int| 0 <= i < fallbacks.len() implies with_fallbacks(
            first,
            fallbacks,
        ).contains(#[trigger] fallbacks[i]) by {
            if i < fallbacks.len() - 1 {
                assert(fs[i] == fallbacks[i]);
                if !rest.contains(fallbacks.last()) {
                    let k = choose|k: int| 0 <= k < rest.len() && rest[k] == fs[i];
                    assert(rest.push(fallbacks.last())[k] == fallbacks[i]);
                }
            } else if !rest.contains(fallbacks.last()) {
                assert(rest.push(fallbacks.last())[rest.len() as int] == fallbacks[i]);
            }
        }
    }
}

/// The shortcuts to try at start, in order: the preferred one in canonical
/// form, then each fallback not already listed.
pub fn shortcut_candidates(preferred: &str) -> (candidates: Vec<String>)
    ensures
        strings_view(candidates@) == with_fallbacks(
            shortcut_name(preferred@),
            fallback_shortcuts(),
        ),
        candidates@.len() > 0,
        candidates@[0]@ == shortcut_name(preferred@),
        strings_view(candidates@).no_duplicates(),
        forall|i: int|
            0 <= i < 4 ==> strings_view(candidates@).contains(#[trigger] fallback_shortcuts()[i]),
{
    let first = normalize_shortcut(preferred);
    let ghost first_view = first@;
    let mut candidates: Vec<String> = vec![first];
    let mut k: usize = 0;
    assert(fallback_shortcuts().take(0) =~= Seq::<Seq<char>>::empty());
    assert(strings_view(candidates@) =~= seq![first_view]);
    while k < 4
        invariant
            k <= 4,
            first_view == shortcut_name(preferred@),
            strings_view(candidates@) == with_fallbacks(
                first_view,
                fallback_shortcuts().take(k as int),
            ),
        decreases 4 - k,
    {
        let fallback = fallback_at(k);
        let ghost before = strings_view(candidates@);
        proof {
            let next = fallback_shortcuts().take(k + 1);
            assert(next.drop_last() =~= fallback_shortcuts().take(k as int));
            assert(next.last() == fallback_shortcuts()[k as int]);
        }
        if !contains_str(&candidates, fallback) {
            candidates.push(fallback.to_string());
            assert(strings_view(candidates@) =~= before.push(fallback@));
        }
        k = k + 1;
    }
    assert(fallback_shortcuts().take(4) =~= fallback_shortcuts());
    proof {
        lemma_with_fallbacks(first_view, fallback_shortcuts());
        assert(strings_view(candidates@)[0] == candidates@[0]@);
    }
    candidates
}

/// One change to the set of registered global shortcuts.
pub enum ShortcutStep {
    /// Register a shortcut; when `required`, a failure aborts the change and
    /// is reported, otherwise it is ignored.
    Register { shortcut: String, required: bool },
    /// Unregister a shortcut, ignoring a failure.
    Unregister(String),
}

/// The model of a `ShortcutStep`.
pub enum ShortcutStepView {
    Register { shortcut: Seq<char>, required: bool },
    Unregister(Seq<char>),
}

impl View for ShortcutStep {
    type V = ShortcutStepView;

    open spec fn view(&self) -> ShortcutStepView {
        match self {
            ShortcutStep::Register { shortcut, required } => ShortcutStepView::Register {
                shortcut: shortcut@,
                required: *required,
            },
            ShortcutStep::Unregister(s) => ShortcutStepView::Unregister(s@),
        }
    }
}

/// The steps of a change of hotkey, run in order, and the hotkey stored once
/// they succeed.
pub struct ShortcutPlan {
    pub steps: Vec<ShortcutStep>,
    pub hotkey: String,
}

/// The models of a list of steps.
pub open spec fn steps_view(steps: Seq<ShortcutStep>) -> Seq<ShortcutStepView> {
    Seq::new(steps.len(), |i: int| steps[i]@)
}

/// The steps that move the registration from hotkey `current` to `next`.
///
/// A modifier hotkey is watched by the modifier tap, with the default
/// shortcut kept registered beside it. `next_registered` and
/// `current_registered` say whether the canonical forms of `next` and
/// `current` are registered now.
pub open spec fn change_steps(
    current: Seq<char>,
    next: Seq<char>,
    next_registered: bool,
    current_registered: bool,
) -> Seq<ShortcutStepView> {
    let n = shortcut_name(next);
    let c = shortcut_name(current);
    let register_default = ShortcutStepView::Register {
        shortcut: DEFAULT_SHORTCUT@,
        required: false,
    };
    let register_next = ShortcutStepView::Register { shortcut: n, required: true };
    if modifier_name(n) is Some {
        if modifier_name(c) is None && c != DEFAULT_SHORTCUT@ {
            seq![ShortcutStepView::Unregister(c), register_default]
        } else {
            seq![register_default]
        }
    } else if modifier_name(c) is Some {
        let first: Seq<ShortcutStepView> = if next_registered {
            seq![]
        } else {
            seq![register_next]
        };
        if n != DEFAULT_SHORTCUT@ {
            first.push(ShortcutStepView::Unregister(DEFAULT_SHORTCUT@))
        } else {
            first
        }
    } else if c == n && current_registered {
        seq![]
    } else if c != n {
        seq![register_next, ShortcutStepView::Unregister(c)]
    } else {
        seq![register_next]
    }
}

/// The steps that replace the registered hotkey `current` by `next`; the
/// hotkey to store is the canonical form of `next`.
pub fn plan_shortcut_change(
    current: &str,
    next: &str,
    next_registered: bool,
    current_registered: bool,
) -> (plan: ShortcutPlan)
    ensures
        steps_view(plan.steps@) == change_steps(
            current@,
            next@,
            next_registered,
            current_registered,
        ),
        plan.hotkey@ == shortcut_name(next@),
{
    let n = normalize_shortcut(next);
    let c = normalize_shortcut(current);
    let next_is_modifier = is_modifier_hotkey(n.as_str());
    let current_is_modifier = is_modifier_hotkey(c.as_str());
    let mut steps: Vec<ShortcutStep> = Vec::new();
    if next_is_modifier {
        if !current_is_modifier && !str_eq(c.as_str(), DEFAULT_SHORTCUT) {
            steps.push(ShortcutStep::Unregister(c));
        }
        steps.push(
            ShortcutStep::Register { shortcut: DEFAULT_SHORTCUT.to_string(), required: false },
        );
    } else if current_is_modifier {
        if !next_registered {
            steps.push(ShortcutStep::Register { shortcut: n.clone(), required: true });
        }
        if !str_eq(n.as_str(), DEFAULT_SHORTCUT) {
            steps.push(ShortcutStep::Unregister(DEFAULT_SHORTCUT.to_string()));
        }
    } else if str_eq(c.as_str(), n.as_str()) && current_registered {
    } else {
        let same = str_eq(c.as_str(), n.as_str());
        steps.push(ShortcutStep::Register { shortcut: n.clone(), required: true });
        if !same {
            steps.push(ShortcutStep::Unregister(c));
        }
    }
    assert(steps_view(steps@) =~= change_steps(
        current@,
        next@,
        next_registered,
        current_registered,
    ));
    ShortcutPlan { steps, hotkey: n }
}

/// The registered shortcuts after one step, when it succeeds.
pub open spec fn apply_step(registered: Set<Seq<char>>, step: ShortcutStepView) -> Set<Seq<char>> {
    match step {
        ShortcutStepView::Register { shortcut, .. } => registered.insert(shortcut),
        ShortcutStepView::Unregister(shortcut) => registered.remove(shortcut),
    }
}

/// The registered shortcuts after the steps, in order, when they all succeed.
pub open spec fn apply_steps(registered: Set<Seq<char>>, steps: Seq<ShortcutStepView>) -> Set<
    Seq<char>,
>
    decreases steps.len(),
{
    if steps.len() == 0 {
        registered
    } else {
        apply_steps(apply_step(registered, steps[0]), steps.drop_first())
    }
}

/// When every step of a hotkey change succeeds: an ordinary new hotkey ends up
/// registered and an ordinary old one that differs from it does not; a
/// modifier hotkey ends up with the default shortcut registered beside it; and
/// leaving a modifier hotkey drops the default shortcut unless it is the new
/// hotkey.
pub proof fn lemma_change_registers_next(
    registered: Set<Seq<char>>,
    current: Seq<char>,
    next: Seq<char>,
)
    ensures
        ({
            let n = shortcut_name(next);
            let c = shortcut_name(current);
            let out = apply_steps(
                registered,
                change_steps(current, next, registered.contains(n), registered.contains(c)),
            );
            &&& modifier_name(n) is None ==> out.contains(n)
            &&& modifier_name(n) is None && modifier_name(c) is None && c != n ==> !out.contains(c)
            &&& modifier_name(n) is Some ==> out.contains(DEFAULT_SHORTCUT@)
            &&& modifier_name(n) is Some && modifier_name(c) is None && c != DEFAULT_SHORTCUT@
                ==> !out.contains(c)
            &&& modifier_name(n) is None && modifier_name(c) is Some && n != DEFAULT_SHORTCUT@
                ==> !out.contains(DEFAULT_SHORTCUT@)
        }),
{
    let n = shortcut_name(next);
    let c = shortcut_name(current);
    let steps = change_steps(current, next, registered.contains(n), registered.contains(c));
    reveal_with_fuel(apply_steps, 3);
    if steps.len() >= 1 {
        assert(steps.drop_first().len() == steps.len() - 1);
    }
    if steps.len() == 2 {
        assert(steps.drop_first()[0] == steps[1]);
        assert(steps.drop_first().drop_first().len() == 0);
    }
}

/// Moving to a modifier hotkey never depends on a registration succeeding:
/// the only shortcut it registers is "CommandOrControl+Shift+Space", best
/// effort, whatever the current hotkey is, and the hotkey stored is the
/// modifier's name.
pub proof fn lemma_modifier_change_best_effort(
    current: Seq<char>,
    next: Seq<char>,
    next_registered: bool,
    current_registered: bool,
)
    requires
        modifier_name(shortcut_name(next)) is Some,
    ensures
        forall|i: int|
            0 <= i < change_steps(current, next, next_registered, current_registered).len()
                ==> match #[trigger] change_steps(
                current,
                next,
                next_registered,
                current_registered,
            )[i] {
                ShortcutStepView::Register { shortcut, required } => !required && shortcut
                    == "CommandOrControl+Shift+Space"@,
                ShortcutStepView::Unregister(_) => true,
            },
        exists|i: int|
            0 <= i < change_steps(current, next, next_registered, current_registered).len()
                && #[trigger] change_steps(current, next, next_registered, current_registered)[i]
                == (ShortcutStepView::Register {
                shortcut: "CommandOrControl+Shift+Space"@,
                required: false,
            }),
{
    let steps = change_steps(current, next, next_registered, current_registered);
    let last = (steps.len() - 1) as int;
    assert(steps[last] == (ShortcutStepView::Register {
        shortcut: "CommandOrControl+Shift+Space"@,
        required: false,
    }));
}

/// Moving to an ordinary hotkey registers nothing but the new hotkey, and
/// that registration must succeed; it leaves the old hotkey registered only
/// when old and new are the same shortcut.
pub proof fn lemma_ordinary_change(
    current: Seq<char>,
    next: Seq<char>,
    next_registered: bool,
    current_registered: bool,
)
    requires
        modifier_name(shortcut_name(next)) is None,
    ensures
        forall|i: int|
            0 <= i < change_steps(current, next, next_registered, current_registered).len()
                ==> match #[trigger] change_steps(
                current,
                next,
                next_registered,
                current_registered,
            )[i] {
                ShortcutStepView::Register { shortcut, required } => required && shortcut
                    == shortcut_name(next),
                ShortcutStepView::Unregister(s) => s != shortcut_name(next),
            },
{
}

/// How the app registers its shortcut at start.
pub enum StartupShortcuts {
    /// The hotkey is a modifier, watched by the modifier tap; only the default
    /// shortcut is registered beside it.
    ModifierTap,
    /// Try these in order and keep the first that registers.
    TryInOrder(Vec<String>),
}

/// How to register the shortcut at start, for the stored hotkey `preferred`.
pub fn startup_shortcuts(preferred: &str) -> (s: StartupShortcuts)
    ensures
        match s {
            StartupShortcuts::ModifierTap => modifier_name(preferred@) is Some,
            StartupShortcuts::TryInOrder(c) => modifier_name(preferred@) is None
                && strings_view(c@) == with_fallbacks(
                shortcut_name(preferred@),
                fallback_shortcuts(),
            ),
        },
{
    if is_modifier_hotkey(preferred) {
        StartupShortcuts::ModifierTap
    } else {
        StartupShortcuts::TryInOrder(shortcut_candidates(preferred))
    }
}

} // verus!
