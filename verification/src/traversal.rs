//! One run over a working directory: which of its children the command is
//! run in, and how the exit codes of all the runs reduce to one.

use vstd::prelude::*;
use vstd::string::StringExecFns;
use crate::args::{texts, LoopOptions, LoopOptionsView};
use crate::config::LoopConfig;
use crate::executor::{
    check_patterns, in_scope, patterns_compile, reports_first_fault, should_process_directory,
    PatternError,
};

verus! {

/// Reads `exitcode::OK`, the code of a successful exit. Believed: it is 0,
/// as the crate declares it.
#[verifier::external_body]
fn success_code() -> (code: i32)
    ensures
        code == 0,
{
    exitcode::OK
}

/// The code of the first failure among `codes`, taken in order: the first
/// that is not 0. `None` where every code is 0.
pub open spec fn first_failure(codes: Seq<i32>) -> Option<i32>
    decreases codes.len(),
{
    if codes.len() == 0 {
        None
    } else {
        match first_failure(codes.drop_last()) {
            Some(code) => Some(code),
            None => if codes.last() != 0 {
                Some(codes.last())
            } else {
                None
            },
        }
    }
}

/// The exit code of a whole run: that of its first failure, or 0 where
/// nothing failed or nothing was run.
pub open spec fn overall_exit_code(codes: Seq<i32>) -> i32 {
    match first_failure(codes) {
        Some(code) => code,
        None => 0,
    }
}

/// The exit codes of a run so far, of which only the first failure is kept.
pub struct RunSummary {
    first_error_code: Option<i32>,
    recorded: Ghost<Seq<i32>>,
}

impl RunSummary {
    #[verifier::type_invariant]
    spec fn consistent(self) -> bool {
        self.first_error_code == first_failure(self.recorded@)
    }

    /// Every exit code recorded so far, in the order of the runs.
    pub closed spec fn codes(&self) -> Seq<i32> {
        self.recorded@
    }

    /// A summary of no runs.
    pub fn new() -> (summary: RunSummary)
        ensures
            summary.codes() == Seq::<i32>::empty(),
    {
        RunSummary { first_error_code: None, recorded: Ghost(Seq::empty()) }
    }

    /// Records the exit code of the next run.
    pub fn record(&mut self, exit_code: i32)
        ensures
            final(self).codes() == old(self).codes().push(exit_code),
    {
        proof {
            use_type_invariant(&*self);
        }
        let ghost before = self.recorded@;
        let kept = if exit_code != 0 && self.first_error_code.is_none() {
            Some(exit_code)
        } else {
            self.first_error_code
        };
        proof {
            assert(before.push(exit_code).drop_last() =~= before);
        }
        *self = RunSummary { first_error_code: kept, recorded: Ghost(before.push(exit_code)) };
    }

    /// The code of the first failure so far, if any run failed.
    pub fn first_error_code(&self) -> (code: Option<i32>)
        ensures
            code == first_failure(self.codes()),
    {
        proof {
            use_type_invariant(self);
        }
        self.first_error_code
    }

    /// The exit code of the run as a whole.
    pub fn exit_code(&self) -> (code: i32)
        ensures
            code == overall_exit_code(self.codes()),
    {
        proof {
            use_type_invariant(self);
        }
        match self.first_error_code {
            Some(code) => code,
            None => success_code(),
        }
    }
}

/// The first failure wins: the overall exit code is not 0 exactly where
/// some run failed, and it is then the code of the earliest such run,
/// whatever came after it.
pub proof fn lemma_first_failure_wins(codes: Seq<i32>)
    ensures
        match first_failure(codes) {
            Some(code) => exists|i: int|
                0 <= i < codes.len() && #[trigger] codes[i] == code && code != 0 && forall|j: int|
                    0 <= j < i ==> codes[j] == 0,
            None => forall|i: int| 0 <= i < codes.len() ==> codes[i] == 0,
        },
    decreases codes.len(),
{
    if codes.len() > 0 {
        let earlier = codes.drop_last();
        lemma_first_failure_wins(earlier);
        match first_failure(earlier) {
            Some(code) => {
                let i = choose|i: int|
                    0 <= i < earlier.len() && #[trigger] earlier[i] == code && code != 0
                        && forall|j: int| 0 <= j < i ==> earlier[j] == 0;
                assert(forall|j: int| 0 <= j < i ==> codes[j] == earlier[j]);
            },
            None => {
                assert(forall|i: int| 0 <= i < earlier.len() ==> codes[i] == earlier[i]);
            },
        }
    }
}

/// What follows a failure does not change the result: once some run has
/// failed, the overall exit code stays what it is, whatever is recorded
/// after it.
pub proof fn lemma_later_codes_are_ignored(codes: Seq<i32>, later: Seq<i32>)
    requires
        first_failure(codes) is Some,
    ensures
        first_failure(codes + later) == first_failure(codes),
        overall_exit_code(codes + later) == overall_exit_code(codes),
    decreases later.len(),
{
    if later.len() > 0 {
        lemma_later_codes_are_ignored(codes, later.drop_last());
        assert((codes + later).drop_last() == codes + later.drop_last());
    }
}

/// The names among `names` that are in scope, in the order in which they
/// stand.
pub open spec fn children_in_scope(
    names: Seq<Seq<char>>,
    options: LoopOptionsView,
    ignore: Seq<Seq<char>>,
) -> Seq<Seq<char>> {
    names.filter(|name: Seq<char>| in_scope(name, options, ignore))
}

/// Picks, among the child directories `names`, those in which the command
/// is run, and keeps their order.
///
/// The patterns are checked first, before any name is looked at: where one
/// is not well formed, no directory is picked and the fault is returned.
pub fn plan_children(
    names: &Vec<String>,
    args: &LoopOptions,
    config: &LoopConfig,
) -> (plan: Result<Vec<String>, PatternError>)
    ensures
        match plan {
            Ok(selected) => patterns_compile(args@) && texts(selected@) == children_in_scope(
                texts(names@),
                args@,
                config@,
            ),
            Err(fault) => reports_first_fault(Err(fault), args@),
        },
        plan is Ok <==> patterns_compile(args@),
{
    match check_patterns(args) {
        Err(fault) => Err(fault),
        Ok(()) => {
            let ghost keep = |name: Seq<char>| in_scope(name, args@, config@);
            let mut selected: Vec<String> = Vec::new();
            let mut i: usize = 0;
            while i < names.len()
                invariant
                    i <= names.len(),
                    patterns_compile(args@),
                    keep == |name: Seq<char>| in_scope(name, args@, config@),
                    texts(selected@) == texts(names@).take(i as int).filter(keep),
                decreases names.len() - i,
            {
                if should_process_directory(names[i].as_str(), args, config) {
                    selected.push(names[i].clone());
                }
                proof {
                    reveal(Seq::filter);
                    let done = texts(names@).take(i as int + 1);
                    assert(done.drop_last() == texts(names@).take(i as int));
                }
                i += 1;
            }
            proof {
                assert(texts(names@).take(names@.len() as int) == texts(names@));
            }
            Ok(selected)
        },
    }
}

/// A directory that a run turns to.
#[derive(Debug, Clone, PartialEq, Eq)]
pub enum Target {
    /// A child of the working directory that is in scope, by its name.
    Child(String),
    /// A path that the user named explicitly. It is taken as it is, whatever
    /// the selection rules say, and may lie outside the working directory.
    Explicit(String),
}

/// The mathematical content of a [`Target`].
pub enum TargetView {
    Child(Seq<char>),
    Explicit(Seq<char>),
}

impl View for Target {
    type V = TargetView;

    open spec fn view(&self) -> TargetView {
        match *self {
            Target::Child(name) => TargetView::Child(name@),
            Target::Explicit(path) => TargetView::Explicit(path@),
        }
    }
}

/// The contents of a list of targets, in order.
pub open spec fn target_views(targets: Seq<Target>) -> Seq<TargetView> {
    Seq::new(targets.len(), |i: int| targets[i]@)
}

/// The paths that the user named explicitly, in the order given.
pub open spec fn explicit_paths(options: LoopOptionsView) -> Seq<Seq<char>> {
    match options.include_dirs {
        Some(paths) => paths,
        None => Seq::empty(),
    }
}

/// Everything a run turns to, in order: first the children in scope, as
/// they stand in `children`, then every explicitly named path.
pub open spec fn planned_targets(
    children: Seq<Seq<char>>,
    options: LoopOptionsView,
    ignore: Seq<Seq<char>>,
) -> Seq<TargetView> {
    let chosen = children_in_scope(children, options, ignore);
    let named = explicit_paths(options);
    Seq::new(chosen.len(), |i: int| TargetView::Child(chosen[i])) + Seq::new(
        named.len(),
        |i: int| TargetView::Explicit(named[i]),
    )
}

/// Lays out a whole run: the children of the working directory that are in
/// scope, in the order of `children`, followed by the explicitly named
/// paths, in the order given.
///
/// The patterns are checked first: where one is not well formed, nothing is
/// planned and the fault is returned.
pub fn plan_run(
    children: &Vec<String>,
    args: &LoopOptions,
    config: &LoopConfig,
) -> (plan: Result<Vec<Target>, PatternError>)
    ensures
        match plan {
            Ok(targets) => patterns_compile(args@) && target_views(targets@) == planned_targets(
                texts(children@),
                args@,
                config@,
            ),
            Err(fault) => reports_first_fault(Err(fault), args@),
        },
        plan is Ok <==> patterns_compile(args@),
{
    let chosen = match plan_children(children, args, config) {
        Ok(chosen) => chosen,
        Err(fault) => {
            return Err(fault);
        },
    };
    let ghost chosen_texts = texts(chosen@);
    let mut targets: Vec<Target> = Vec::new();
    let mut i: usize = 0;
    while i < chosen.len()
        invariant
            i <= chosen.len(),
            chosen_texts == texts(chosen@),
            targets@.len() == i,
            forall|k: int| 0 <= k < i ==> targets@[k]@ == TargetView::Child(chosen_texts[k]),
        decreases chosen.len() - i,
    {
        targets.push(Target::Child(chosen[i].clone()));
        i += 1;
    }
    let ghost named = explicit_paths(args@);
    match &args.include_dirs {
        Some(paths) => {
            let mut j: usize = 0;
            while j < paths.len()
                invariant
                    j <= paths.len(),
                    named == texts(paths@),
                    targets@.len() == chosen_texts.len() + j,
                    forall|k: int|
                        0 <= k < chosen_texts.len() ==> targets@[k]@ == TargetView::Child(
                            chosen_texts[k],
                        ),
                    forall|k: int|
                        0 <= k < j ==> targets@[chosen_texts.len() + k]@ == TargetView::Explicit(
                            named[k],
                        ),
                decreases paths.len() - j,
            {
                targets.push(Target::Explicit(paths[j].clone()));
                j += 1;
            }
        },
        None => {},
    }
    Ok(targets)
}

/// What to do with a target.
#[derive(Debug, Clone, PartialEq, Eq)]
pub enum Action {
    /// Run the command in it.
    Run,
    /// Skip it, and print the line on the error stream; the run goes on.
    Warn(String),
}

/// What the warning about a path that is no directory starts with.
pub const WARNING_PREFIX: &'static str = "Warning: ";

/// What the warning about a path that is no directory ends with.
pub const WARNING_SUFFIX: &'static str = " is not a directory";

/// The line that warns about an explicitly named path that is no
/// directory.
pub open spec fn warning_text(path: Seq<char>) -> Seq<char> {
    WARNING_PREFIX@ + path + WARNING_SUFFIX@
}

impl Target {
    /// What to do with this target. `is_directory` says whether an
    /// explicitly named path leads to a directory now; for a child, which
    /// was listed as a directory, it is not read.
    pub fn action(&self, is_directory: bool) -> (action: Action)
        ensures
            match *self {
                Target::Child(_) => action == Action::Run,
                Target::Explicit(path) => if is_directory {
                    action == Action::Run
                } else {
                    action matches Action::Warn(line) && line@ == warning_text(path@)
                },
            },
    {
        match self {
            Target::Child(_) => Action::Run,
            Target::Explicit(path) => {
                if is_directory {
                    Action::Run
                } else {
                    let mut line = String::from_str(WARNING_PREFIX);
                    line.append(path.as_str());
                    line.append(WARNING_SUFFIX);
                    Action::Warn(line)
                }
            },
        }
    }
}

/// The children come first: in a plan, no explicitly named path stands
/// before a child, and both kinds keep the order in which they were given.
pub proof fn lemma_children_come_before_explicit_paths(
    children: Seq<Seq<char>>,
    options: LoopOptionsView,
    ignore: Seq<Seq<char>>,
)
    ensures
        ({
            let plan = planned_targets(children, options, ignore);
            let chosen = children_in_scope(children, options, ignore);
            let named = explicit_paths(options);
            &&& plan.len() == chosen.len() + named.len()
            &&& forall|i: int| 0 <= i < chosen.len() ==> plan[i] == TargetView::Child(chosen[i])
            &&& forall|i: int|
                0 <= i < named.len() ==> plan[chosen.len() + i] == TargetView::Explicit(named[i])
        }),
{
}

/// A plan holds no child that is out of scope, and none that was not
/// listed.
pub proof fn lemma_planned_children_are_in_scope(
    children: Seq<Seq<char>>,
    options: LoopOptionsView,
    ignore: Seq<Seq<char>>,
)
    ensures
        forall|i: int|
            0 <= i < children_in_scope(children, options, ignore).len() ==> {
                let name = #[trigger] children_in_scope(children, options, ignore)[i];
                in_scope(name, options, ignore) && children.contains(name)
            },
        forall|i: int|
            0 <= i < children.len() && in_scope(#[trigger] children[i], options, ignore)
                ==> children_in_scope(children, options, ignore).contains(children[i]),
{
    let keep = |name: Seq<char>| in_scope(name, options, ignore);
    let chosen = children.filter(keep);
    assert forall|i: int| 0 <= i < chosen.len() implies keep(#[trigger] chosen[i])
        && children.contains(chosen[i]) by {
        children.lemma_filter_pred(keep, i);
        children.lemma_filter_contains_rev(keep, chosen[i]);
    }
    assert forall|i: int| 0 <= i < children.len() && keep(#[trigger] children[i]) implies chosen.contains(
        children[i],
    ) by {
        children.lemma_filter_contains(keep, i);
    }
}

/// A plan keeps the order of the listing: where the children are listed in
/// the order `before`, whatever order that is, the children in scope stand
/// in that order too.
pub proof fn lemma_plan_keeps_the_order_of_children(
    children: Seq<Seq<char>>,
    options: LoopOptionsView,
    ignore: Seq<Seq<char>>,
    before: spec_fn(Seq<char>, Seq<char>) -> bool,
)
    requires
        forall|i: int, j: int| 0 <= i < j < children.len() ==> before(children[i], children[j]),
    ensures
        forall|i: int, j: int|
            0 <= i < j < children_in_scope(children, options, ignore).len() ==> before(
                children_in_scope(children, options, ignore)[i],
                children_in_scope(children, options, ignore)[j],
            ),
    decreases children.len(),
{
    let keep = |name: Seq<char>| in_scope(name, options, ignore);
    let chosen = children.filter(keep);
    reveal(Seq::filter);
    if children.len() > 0 {
        let earlier = children.drop_last();
        let last = children.last();
        lemma_plan_keeps_the_order_of_children(earlier, options, ignore, before);
        let kept = earlier.filter(keep);
        assert(children_in_scope(earlier, options, ignore) == kept);
        if keep(last) {
            assert forall|i: int, j: int| 0 <= i < j < chosen.len() implies before(
                chosen[i],
                chosen[j],
            ) by {
                if j == kept.len() {
                    // `chosen[j]` is the last child, and `chosen[i]` stands
                    // somewhere before it in the listing.
                    earlier.lemma_filter_contains_rev(keep, kept[i]);
                    let k = choose|k: int| 0 <= k < earlier.len() && earlier[k] == kept[i];
                    assert(before(children[k], children[children.len() - 1]));
                }
            }
        }
    }
}

} // verus!
