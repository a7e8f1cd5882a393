//! The directory selection policy: an ordered list of rules, of which the
//! first that applies decides whether a directory is in scope.

use vstd::prelude::*;
use crate::args::{LoopOptions, LoopOptionsView};
use crate::config::LoopConfig;
use crate::pattern::{hits, pattern_compiles, pattern_fault, pattern_matches, validate};
use crate::text::contains_text;

verus! {

/// The selection rules, in the order in which they are consulted.
#[derive(Debug, Clone, Copy, PartialEq, Eq, Structural)]
pub enum Rule {
    /// An exclusive allow-list is set: only its members are in scope.
    IncludeOnly,
    /// An exclusive deny-list is set: everything but its members is in scope.
    ExcludeOnly,
    /// The name is on the allow-list.
    Included,
    /// The name is on the deny-list.
    Excluded,
    /// An allow-pattern is set and the name does not match it.
    IncludePatternMiss,
    /// A deny-pattern is set and the name matches it.
    ExcludePatternHit,
    /// The name is on the configured ignore list.
    Ignored,
    /// No other rule applies.
    Default,
}

/// Whether an optional list holds `name`.
pub open spec fn lists(list: Option<Seq<Seq<char>>>, name: Seq<char>) -> bool {
    list matches Some(names) && names.contains(name)
}

/// The name that, as a member of the exclusive allow-list, admits every
/// directory: that of the current directory.
pub const WILDCARD: &'static str = ".";

/// The characters of [`WILDCARD`].
pub open spec fn wildcard() -> Seq<char> {
    WILDCARD@
}

impl Rule {
    /// The position of the rule in the order of precedence.
    pub open spec fn rank(self) -> int {
        match self {
            Rule::IncludeOnly => 0,
            Rule::ExcludeOnly => 1,
            Rule::Included => 2,
            Rule::Excluded => 3,
            Rule::IncludePatternMiss => 4,
            Rule::ExcludePatternHit => 5,
            Rule::Ignored => 6,
            Rule::Default => 7,
        }
    }

    /// Whether the rule, taken by itself, has something to say about `name`.
    ///
    /// `include_hit` and `exclude_hit` say whether the allow-pattern and the
    /// deny-pattern match `name`; each is read only where its pattern is set.
    pub open spec fn applies(
        self,
        name: Seq<char>,
        options: LoopOptionsView,
        ignore: Seq<Seq<char>>,
        include_hit: bool,
        exclude_hit: bool,
    ) -> bool {
        match self {
            Rule::IncludeOnly => options.include_only is Some,
            Rule::ExcludeOnly => options.exclude_only is Some,
            Rule::Included => lists(options.include_dirs, name),
            Rule::Excluded => lists(options.exclude, name),
            Rule::IncludePatternMiss => options.include_pattern is Some && !include_hit,
            Rule::ExcludePatternHit => options.exclude_pattern is Some && exclude_hit,
            Rule::Ignored => ignore.contains(name),
            Rule::Default => true,
        }
    }

    /// What the rule says about `name` where it applies: `true` for in
    /// scope.
    pub open spec fn verdict(self, name: Seq<char>, options: LoopOptionsView) -> bool {
        match self {
            Rule::IncludeOnly => lists(options.include_only, name) || lists(
                options.include_only,
                wildcard(),
            ),
            Rule::ExcludeOnly => !lists(options.exclude_only, name),
            Rule::Included => true,
            Rule::Excluded => false,
            Rule::IncludePatternMiss => false,
            Rule::ExcludePatternHit => false,
            Rule::Ignored => false,
            Rule::Default => true,
        }
    }
}

/// The rule that decides for `name`: the first in the order of precedence
/// that applies.
pub open spec fn deciding_rule(
    name: Seq<char>,
    options: LoopOptionsView,
    ignore: Seq<Seq<char>>,
    include_hit: bool,
    exclude_hit: bool,
) -> Rule {
    if Rule::IncludeOnly.applies(name, options, ignore, include_hit, exclude_hit) {
        Rule::IncludeOnly
    } else if Rule::ExcludeOnly.applies(name, options, ignore, include_hit, exclude_hit) {
        Rule::ExcludeOnly
    } else if Rule::Included.applies(name, options, ignore, include_hit, exclude_hit) {
        Rule::Included
    } else if Rule::Excluded.applies(name, options, ignore, include_hit, exclude_hit) {
        Rule::Excluded
    } else if Rule::IncludePatternMiss.applies(name, options, ignore, include_hit, exclude_hit) {
        Rule::IncludePatternMiss
    } else if Rule::ExcludePatternHit.applies(name, options, ignore, include_hit, exclude_hit) {
        Rule::ExcludePatternHit
    } else if Rule::Ignored.applies(name, options, ignore, include_hit, exclude_hit) {
        Rule::Ignored
    } else {
        Rule::Default
    }
}

/// Whether `name` is in scope, given what the two patterns say about it.
pub open spec fn selects(
    name: Seq<char>,
    options: LoopOptionsView,
    ignore: Seq<Seq<char>>,
    include_hit: bool,
    exclude_hit: bool,
) -> bool {
    deciding_rule(name, options, ignore, include_hit, exclude_hit).verdict(name, options)
}

/// Whether an optional pattern is set and matches `name`.
pub open spec fn pattern_hit(pattern: Option<Seq<char>>, name: Seq<char>) -> bool {
    pattern matches Some(p) && pattern_matches(p, name)
}

/// Whether `name` is in scope under `options` and the ignore list, with the
/// patterns run as regular expressions.
pub open spec fn in_scope(name: Seq<char>, options: LoopOptionsView, ignore: Seq<Seq<char>>) -> bool {
    selects(
        name,
        options,
        ignore,
        pattern_hit(options.include_pattern, name),
        pattern_hit(options.exclude_pattern, name),
    )
}

/// The outcome of the selection rules for one name: the rule that decided
/// and what it said.
#[derive(Debug, Clone, Copy, PartialEq, Eq, Structural)]
pub struct Decision {
    pub rule: Rule,
    pub included: bool,
}

fn holds(list: &Option<Vec<String>>, name: &str) -> (found: bool)
    ensures
        found == lists(crate::args::optional_texts(*list), name@),
{
    match list {
        Some(names) => contains_text(names, name),
        None => false,
    }
}

/// The four rules that read only the literal lists: the decision of the
/// first that applies, or `None` where none of them does.
fn literal_decision(dir_name: &str, args: &LoopOptions) -> (decision: Option<Decision>)
    ensures
        forall|ignore: Seq<Seq<char>>, include_hit: bool, exclude_hit: bool|
            #![trigger deciding_rule(dir_name@, args@, ignore, include_hit, exclude_hit)]
            match decision {
                Some(d) => d.rule == deciding_rule(
                    dir_name@,
                    args@,
                    ignore,
                    include_hit,
                    exclude_hit,
                ) && d.included == d.rule.verdict(dir_name@, args@),
                None => deciding_rule(dir_name@, args@, ignore, include_hit, exclude_hit).rank()
                    >= 4,
            },
{
    if args.include_only.is_some() {
        let included = holds(&args.include_only, dir_name) || holds(&args.include_only, WILDCARD);
        Some(Decision { rule: Rule::IncludeOnly, included })
    } else if args.exclude_only.is_some() {
        Some(Decision { rule: Rule::ExcludeOnly, included: !holds(&args.exclude_only, dir_name) })
    } else if holds(&args.include_dirs, dir_name) {
        Some(Decision { rule: Rule::Included, included: true })
    } else if holds(&args.exclude, dir_name) {
        Some(Decision { rule: Rule::Excluded, included: false })
    } else {
        None
    }
}

/// The rules that follow the literal lists: the patterns, the ignore list
/// and the default.
fn later_decision(
    dir_name: &str,
    args: &LoopOptions,
    config: &LoopConfig,
    include_hit: bool,
    exclude_hit: bool,
) -> (decision: Decision)
    requires
        deciding_rule(dir_name@, args@, config@, include_hit, exclude_hit).rank() >= 4,
    ensures
        decision.rule == deciding_rule(dir_name@, args@, config@, include_hit, exclude_hit),
        decision.included == selects(dir_name@, args@, config@, include_hit, exclude_hit),
{
    if args.include_pattern.is_some() && !include_hit {
        Decision { rule: Rule::IncludePatternMiss, included: false }
    } else if args.exclude_pattern.is_some() && exclude_hit {
        Decision { rule: Rule::ExcludePatternHit, included: false }
    } else if contains_text(&config.ignore, dir_name) {
        Decision { rule: Rule::Ignored, included: false }
    } else {
        Decision { rule: Rule::Default, included: true }
    }
}

/// Runs the selection rules on `dir_name`, given what the two patterns say
/// about it, and reports which rule decided.
///
/// `include_hit` is read only where an allow-pattern is set, `exclude_hit`
/// only where a deny-pattern is set.
pub fn evaluate(
    dir_name: &str,
    args: &LoopOptions,
    config: &LoopConfig,
    include_hit: bool,
    exclude_hit: bool,
) -> (decision: Decision)
    ensures
        decision.rule == deciding_rule(dir_name@, args@, config@, include_hit, exclude_hit),
        decision.included == selects(dir_name@, args@, config@, include_hit, exclude_hit),
{
    match literal_decision(dir_name, args) {
        Some(decision) => decision,
        None => later_decision(dir_name, args, config, include_hit, exclude_hit),
    }
}

/// Whether `dir_name` is in scope, given what the two patterns say about it.
pub fn decide(
    dir_name: &str,
    args: &LoopOptions,
    config: &LoopConfig,
    include_hit: bool,
    exclude_hit: bool,
) -> (included: bool)
    ensures
        included == selects(dir_name@, args@, config@, include_hit, exclude_hit),
{
    evaluate(dir_name, args, config, include_hit, exclude_hit).included
}

/// Which of the two patterns a fault is about.
#[derive(Debug, Clone, Copy, PartialEq, Eq, Structural)]
pub enum PatternSlot {
    /// The allow-pattern.
    IncludePattern,
    /// The deny-pattern.
    ExcludePattern,
}

/// A pattern that is not a well-formed regular expression.
#[derive(Debug, Clone)]
pub struct PatternError {
    /// The pattern at fault.
    pub slot: PatternSlot,
    /// Why the pattern was rejected.
    pub message: String,
}

/// Whether every pattern that is set is a well-formed regular expression.
pub open spec fn patterns_compile(options: LoopOptionsView) -> bool {
    &&& options.include_pattern matches Some(p) ==> pattern_compiles(p)
    &&& options.exclude_pattern matches Some(p) ==> pattern_compiles(p)
}

/// The first pattern that is set and not well formed, with the reason; the
/// allow-pattern is looked at first.
pub open spec fn first_fault(options: LoopOptionsView) -> Option<(PatternSlot, Seq<char>)> {
    match slot_fault(options.include_pattern) {
        Some(message) => Some((PatternSlot::IncludePattern, message)),
        None => match slot_fault(options.exclude_pattern) {
            Some(message) => Some((PatternSlot::ExcludePattern, message)),
            None => None,
        },
    }
}

/// Why an optional pattern is rejected, where it is set and not well
/// formed.
pub open spec fn slot_fault(pattern: Option<Seq<char>>) -> Option<Seq<char>> {
    match pattern {
        Some(p) => if pattern_compiles(p) {
            None
        } else {
            Some(pattern_fault(p))
        },
        None => None,
    }
}

/// Whether `checked` reports exactly the first fault of `options`, or
/// success where there is none.
pub open spec fn reports_first_fault(
    checked: Result<(), PatternError>,
    options: LoopOptionsView,
) -> bool {
    match first_fault(options) {
        Some((slot, message)) => checked matches Err(e) && e.slot == slot && e.message@
            == message,
        None => checked is Ok,
    }
}

fn check_slot(pattern: &Option<String>, slot: PatternSlot) -> (checked: Result<(), PatternError>)
    ensures
        match slot_fault(crate::args::optional_text(*pattern)) {
            Some(message) => checked matches Err(e) && e.slot == slot && e.message@ == message,
            None => checked is Ok,
        },
{
    match pattern {
        Some(p) => match validate(p.as_str()) {
            Ok(()) => Ok(()),
            Err(message) => Err(PatternError { slot, message }),
        },
        None => Ok(()),
    }
}

/// Checks, once and before any directory is looked at, that the patterns of
/// `args` are well-formed regular expressions.
///
/// Both patterns are checked whichever other fields are set; the
/// allow-pattern is checked first.
pub fn check_patterns(args: &LoopOptions) -> (checked: Result<(), PatternError>)
    ensures
        reports_first_fault(checked, args@),
        checked is Ok <==> patterns_compile(args@),
{
    match check_slot(&args.include_pattern, PatternSlot::IncludePattern) {
        Ok(()) => check_slot(&args.exclude_pattern, PatternSlot::ExcludePattern),
        Err(fault) => Err(fault),
    }
}

fn slot_hit(pattern: &Option<String>, dir_name: &str) -> (hit: bool)
    requires
        *pattern matches Some(p) ==> pattern_compiles(p@),
    ensures
        hit == pattern_hit(crate::args::optional_text(*pattern), dir_name@),
{
    match pattern {
        Some(p) => hits(p.as_str(), dir_name),
        None => false,
    }
}

/// Whether the directory named `dir_name` is in scope.
///
/// `dir_name` is the bare name of the directory, not a path. A pattern is
/// compiled only where the rules before it have not decided.
pub fn should_process_directory(
    dir_name: &str,
    args: &LoopOptions,
    config: &LoopConfig,
) -> (included: bool)
    requires
        patterns_compile(args@),
    ensures
        included == in_scope(dir_name@, args@, config@),
{
    match literal_decision(dir_name, args) {
        Some(decision) => decision.included,
        None => {
            let include_hit = slot_hit(&args.include_pattern, dir_name);
            if args.include_pattern.is_some() && !include_hit {
                false
            } else {
                let exclude_hit = slot_hit(&args.exclude_pattern, dir_name);
                later_decision(dir_name, args, config, include_hit, exclude_hit).included
            }
        },
    }
}

/// Whether the directory named `dir_name` is in scope, for options whose
/// patterns have not been checked yet.
///
/// Returns the first fault where a pattern is not well formed, whatever the
/// other fields say.
pub fn select_directory(
    dir_name: &str,
    args: &LoopOptions,
    config: &LoopConfig,
) -> (selected: Result<bool, PatternError>)
    ensures
        match selected {
            Ok(included) => patterns_compile(args@) && included == in_scope(
                dir_name@,
                args@,
                config@,
            ),
            Err(fault) => reports_first_fault(Err(fault), args@),
        },
        selected is Ok <==> patterns_compile(args@),
{
    match check_patterns(args) {
        Ok(()) => Ok(should_process_directory(dir_name, args, config)),
        Err(fault) => Err(fault),
    }
}

/// The first rule that applies decides: the deciding rule applies, and no
/// rule that comes before it in the order of precedence does.
pub proof fn lemma_first_applicable_rule_decides(
    name: Seq<char>,
    options: LoopOptionsView,
    ignore: Seq<Seq<char>>,
    include_hit: bool,
    exclude_hit: bool,
)
    ensures
        deciding_rule(name, options, ignore, include_hit, exclude_hit).applies(
            name,
            options,
            ignore,
            include_hit,
            exclude_hit,
        ),
        forall|rule: Rule| #[trigger]
            rule.applies(name, options, ignore, include_hit, exclude_hit) ==> deciding_rule(
                name,
                options,
                ignore,
                include_hit,
                exclude_hit,
            ).rank() <= rule.rank(),
        forall|a: Rule, b: Rule| a.rank() == b.rank() ==> a == b,
{
}

/// With an exclusive allow-list set, nothing else has a say: two sets of
/// options with the same allow-list decide alike, whatever their other
/// fields, the ignore lists and the patterns say.
pub proof fn lemma_include_only_is_exclusive(
    name: Seq<char>,
    first: LoopOptionsView,
    second: LoopOptionsView,
    first_ignore: Seq<Seq<char>>,
    second_ignore: Seq<Seq<char>>,
    first_hits: (bool, bool),
    second_hits: (bool, bool),
)
    requires
        first.include_only is Some,
        first.include_only == second.include_only,
    ensures
        selects(name, first, first_ignore, first_hits.0, first_hits.1) == selects(
            name,
            second,
            second_ignore,
            second_hits.0,
            second_hits.1,
        ),
        in_scope(name, first, first_ignore) == in_scope(name, second, second_ignore),
{
}

/// With the exclusive allow-list holding the one name `only`, every other
/// name is out of scope, whatever the other fields, the ignore list and the
/// patterns say. `only` must not be the wildcard, which admits every name.
pub proof fn lemma_include_only_single_name(
    name: Seq<char>,
    only: Seq<char>,
    options: LoopOptionsView,
    ignore: Seq<Seq<char>>,
    include_hit: bool,
    exclude_hit: bool,
)
    requires
        options.include_only == Some(seq![only]),
        only != wildcard(),
        name != only,
    ensures
        !selects(name, options, ignore, include_hit, exclude_hit),
        !in_scope(name, options, ignore),
{
}

/// With no exclusive allow-list and the exclusive deny-list set, nothing
/// else has a say: two sets of options with the same deny-list decide
/// alike, whatever their other fields, the ignore lists and the patterns
/// say.
pub proof fn lemma_exclude_only_is_exclusive(
    name: Seq<char>,
    first: LoopOptionsView,
    second: LoopOptionsView,
    first_ignore: Seq<Seq<char>>,
    second_ignore: Seq<Seq<char>>,
    first_hits: (bool, bool),
    second_hits: (bool, bool),
)
    requires
        first.include_only is None,
        second.include_only is None,
        first.exclude_only is Some,
        first.exclude_only == second.exclude_only,
    ensures
        selects(name, first, first_ignore, first_hits.0, first_hits.1) == selects(
            name,
            second,
            second_ignore,
            second_hits.0,
            second_hits.1,
        ),
        in_scope(name, first, first_ignore) == in_scope(name, second, second_ignore),
{
}

/// With no exclusive allow-list and the exclusive deny-list holding the one
/// name `only`, every other name is in scope, whatever the ignore list, the
/// other lists and the patterns say.
pub proof fn lemma_exclude_only_single_name(
    name: Seq<char>,
    only: Seq<char>,
    options: LoopOptionsView,
    ignore: Seq<Seq<char>>,
    include_hit: bool,
    exclude_hit: bool,
)
    requires
        options.include_only is None,
        options.exclude_only == Some(seq![only]),
        name != only,
    ensures
        selects(name, options, ignore, include_hit, exclude_hit),
        in_scope(name, options, ignore),
{
}

/// With no exclusive list set, a name on the allow-list is in scope even
/// where the deny-list, a pattern or the ignore list would leave it out.
pub proof fn lemma_allow_list_comes_before_deny_list(
    name: Seq<char>,
    options: LoopOptionsView,
    ignore: Seq<Seq<char>>,
    include_hit: bool,
    exclude_hit: bool,
)
    requires
        options.include_only is None,
        options.exclude_only is None,
        lists(options.include_dirs, name),
    ensures
        selects(name, options, ignore, include_hit, exclude_hit),
        in_scope(name, options, ignore),
{
}

/// With no list naming it and no pattern set, a name is in scope exactly
/// when the ignore list does not hold it.
pub proof fn lemma_ignore_list_is_the_last_filter(
    name: Seq<char>,
    options: LoopOptionsView,
    ignore: Seq<Seq<char>>,
)
    requires
        options.include_only is None,
        options.exclude_only is None,
        !lists(options.include_dirs, name),
        !lists(options.exclude, name),
        options.include_pattern is None,
        options.exclude_pattern is None,
    ensures
        in_scope(name, options, ignore) == !ignore.contains(name),
{
}

} // verus!
