//! Tool usage statistics and the results of tool invocations.

use vstd::prelude::*;

use super::invocation::Error;
use super::ToolUseError;

verus! {

/// The counts that a sequence of (name, count) entries holds.
pub open spec fn counts_map(s: Seq<(String, usize)>) -> Map<Seq<char>, nat>
    decreases s.len(),
{
    if s.len() == 0 {
        Map::empty()
    } else {
        counts_map(s.drop_last()).insert(s.last().0@, s.last().1 as nat)
    }
}

/// No name occurs twice.
pub open spec fn distinct_names(s: Seq<(String, usize)>) -> bool {
    forall|i: int, j: int| 0 <= i < j < s.len() ==> s[i].0@ != s[j].0@
}

proof fn lemma_counts_map_dom(s: Seq<(String, usize)>, k: Seq<char>)
    ensures
        counts_map(s).contains_key(k) <==> exists|i: int| 0 <= i < s.len() && s[i].0@ == k,
    decreases s.len(),
{
    if s.len() > 0 {
        lemma_counts_map_dom(s.drop_last(), k);
        if counts_map(s).contains_key(k) && s.last().0@ != k {
            let i = choose|i: int| 0 <= i < s.drop_last().len() && s.drop_last()[i].0@ == k;
            assert(s[i].0@ == k);
        }
        if exists|i: int| 0 <= i < s.len() && s[i].0@ == k {
            let i = choose|i: int| 0 <= i < s.len() && s[i].0@ == k;
            if i < s.len() - 1 {
                assert(s.drop_last()[i].0@ == k);
            }
        }
    }
}

proof fn lemma_counts_map_at(s: Seq<(String, usize)>, i: int)
    requires
        0 <= i < s.len(),
        distinct_names(s),
    ensures
        counts_map(s).contains_key(s[i].0@),
        counts_map(s)[s[i].0@] == s[i].1 as nat,
    decreases s.len(),
{
    if i < s.len() - 1 {
        assert(s.drop_last()[i] == s[i]);
        lemma_counts_map_at(s.drop_last(), i);
    }
}

proof fn lemma_counts_map_update(s: Seq<(String, usize)>, i: int, v: usize)
    requires
        0 <= i < s.len(),
        distinct_names(s),
    ensures
        counts_map(s.update(i, (s[i].0, v))) == counts_map(s).insert(s[i].0@, v as nat),
    decreases s.len(),
{
    let t = s.update(i, (s[i].0, v));
    if i == s.len() - 1 {
        assert(t.drop_last() =~= s.drop_last());
        assert(counts_map(t) =~= counts_map(s).insert(s[i].0@, v as nat));
    } else {
        assert(t.drop_last() =~= s.drop_last().update(i, (s[i].0, v)));
        assert(s.drop_last()[i] == s[i]);
        lemma_counts_map_update(s.drop_last(), i, v);
        assert(s[i].0@ != s.last().0@);
        assert(counts_map(t) =~= counts_map(s).insert(s[i].0@, v as nat));
    }
}

/// Counts by name.
pub struct Counts {
    entries: Vec<(String, usize)>,
}

impl Counts {
    #[verifier::type_invariant]
    spec fn distinct(&self) -> bool {
        distinct_names(self.entries@)
    }

    /// The count of each name that was counted.
    pub closed spec fn counts(&self) -> Map<Seq<char>, nat> {
        counts_map(self.entries@)
    }

    /// The count of a name, zero if it was never counted.
    pub open spec fn count(&self, name: Seq<char>) -> nat {
        if self.counts().contains_key(name) { self.counts()[name] } else { 0 }
    }

    /// No counts.
    pub fn new() -> (c: Counts)
        ensures
            c.counts() == Map::<Seq<char>, nat>::empty(),
    {
        Counts { entries: Vec::new() }
    }

    /// The count of `name`, zero if it was never counted.
    pub fn get(&self, name: &str) -> (n: usize)
        ensures
            n as nat == self.count(name@),
    {
        proof { use_type_invariant(self); }
        let key = String::from_str(name);
        let mut i: usize = 0;
        while i < self.entries.len()
            invariant
                i <= self.entries@.len(),
                distinct_names(self.entries@),
                key@ == name@,
                forall|k: int| 0 <= k < i ==> self.entries@[k].0@ != name@,
            decreases self.entries.len() - i,
        {
            if self.entries[i].0 == key {
                proof { lemma_counts_map_at(self.entries@, i as int); }
                return self.entries[i].1;
            }
            i = i + 1;
        }
        proof { lemma_counts_map_dom(self.entries@, name@); }
        0
    }

    /// The (name, count) pairs, in the order the names were first counted.
    pub fn entries(&self) -> (r: Vec<(String, usize)>)
        ensures
            counts_map(r@) == self.counts(),
            distinct_names(r@),
    {
        proof { use_type_invariant(self); }
        let mut r: Vec<(String, usize)> = Vec::new();
        for i in 0..self.entries.len()
            invariant
                r@ == self.entries@.take(i as int),
        {
            r.push((self.entries[i].0.clone(), self.entries[i].1));
            assert(r@ =~= self.entries@.take(i + 1));
        }
        assert(r@ =~= self.entries@);
        r
    }

    /// Count one more for `name`.
    pub fn increment(&mut self, name: &str)
        requires
            old(self).count(name@) < usize::MAX,
        ensures
            final(self).counts() == old(self).counts().insert(name@, old(self).count(name@) + 1),
    {
        proof { use_type_invariant(&*self); }
        let key = String::from_str(name);
        let mut i: usize = 0;
        while i < self.entries.len()
            invariant
                i <= self.entries@.len(),
                distinct_names(self.entries@),
                key@ == name@,
                self.entries@ == old(self).entries@,
                old(self).count(name@) < usize::MAX,
                forall|k: int| 0 <= k < i ==> self.entries@[k].0@ != name@,
            decreases self.entries.len() - i,
        {
            if self.entries[i].0 == key {
                proof { lemma_counts_map_at(self.entries@, i as int); }
                let v = self.entries[i].1 + 1;
                let ghost s = self.entries@;
                let k = self.entries[i].0.clone();
                let mut entries = Vec::new();
                std::mem::swap(&mut entries, &mut self.entries);
                entries.set(i, (k, v));
                proof {
                    lemma_counts_map_update(s, i as int, v);
                    assert(entries@ =~= s.update(i as int, (s[i as int].0, v)));
                    assert(distinct_names(entries@));
                }
                self.entries = entries;
                return;
            }
            i = i + 1;
        }
        proof { lemma_counts_map_dom(self.entries@, name@); }
        let ghost s = self.entries@;
        let mut entries = Vec::new();
        std::mem::swap(&mut entries, &mut self.entries);
        entries.push((String::from_str(name), 1));
        proof {
            assert(entries@.drop_last() =~= s);
            assert(distinct_names(entries@));
        }
        self.entries = entries;
    }
}

impl Clone for Counts {
    fn clone(&self) -> (r: Self)
        ensures
            r.counts() == self.counts(),
    {
        proof { use_type_invariant(self); }
        let mut entries: Vec<(String, usize)> = Vec::new();
        for i in 0..self.entries.len()
            invariant
                entries@ == self.entries@.take(i as int),
                distinct_names(self.entries@),
        {
            entries.push((self.entries[i].0.clone(), self.entries[i].1));
            assert(entries@ =~= self.entries@.take(i + 1));
        }
        assert(self.entries@.take(self.entries@.len() as int) =~= self.entries@);
        Counts { entries }
    }
}

/// Tool usage statistics.
pub struct Stats {
    /// Number of times the tool has been invoked successfully
    pub success_count: Counts,
    /// Number of times the tool has been invoked with an error
    pub error_count: Counts,
    /// Number of times an inexistent tool has been invoked
    pub inexistent_count: Counts,
}

impl Stats {
    /// No invocation counted yet.
    pub fn new() -> (s: Stats)
        ensures
            s.success_count.counts() == Map::<Seq<char>, nat>::empty(),
            s.error_count.counts() == Map::<Seq<char>, nat>::empty(),
            s.inexistent_count.counts() == Map::<Seq<char>, nat>::empty(),
    {
        Stats { success_count: Counts::new(), error_count: Counts::new(), inexistent_count: Counts::new() }
    }

    /// Is no invocation counted?
    pub open spec fn is_empty(&self) -> bool {
        &&& self.success_count.counts() == Map::<Seq<char>, nat>::empty()
        &&& self.error_count.counts() == Map::<Seq<char>, nat>::empty()
        &&& self.inexistent_count.counts() == Map::<Seq<char>, nat>::empty()
    }

    /// Are the counts the same, tool by tool?
    pub open spec fn same_counts(&self, other: &Stats) -> bool {
        &&& self.success_count.counts() == other.success_count.counts()
        &&& self.error_count.counts() == other.error_count.counts()
        &&& self.inexistent_count.counts() == other.inexistent_count.counts()
    }

    /// Report a successful invocation.
    pub fn report_success(&mut self, tool_name: &str)
        requires
            old(self).success_count.count(tool_name@) < usize::MAX,
        ensures
            final(self).success_count.counts() == old(self).success_count.counts().insert(
                tool_name@,
                old(self).success_count.count(tool_name@) + 1,
            ),
            final(self).error_count == old(self).error_count,
            final(self).inexistent_count == old(self).inexistent_count,
    {
        self.success_count.increment(tool_name);
    }

    /// Report a failed invocation.
    pub fn report_error(&mut self, tool_name: &str)
        requires
            old(self).error_count.count(tool_name@) < usize::MAX,
        ensures
            final(self).error_count.counts() == old(self).error_count.counts().insert(
                tool_name@,
                old(self).error_count.count(tool_name@) + 1,
            ),
            final(self).success_count == old(self).success_count,
            final(self).inexistent_count == old(self).inexistent_count,
    {
        self.error_count.increment(tool_name);
    }

    /// Report an inexistent tool invocation.
    pub fn report_inexistent(&mut self, tool_name: &str)
        requires
            old(self).inexistent_count.count(tool_name@) < usize::MAX,
        ensures
            final(self).inexistent_count.counts() == old(self).inexistent_count.counts().insert(
                tool_name@,
                old(self).inexistent_count.count(tool_name@) + 1,
            ),
            final(self).success_count == old(self).success_count,
            final(self).error_count == old(self).error_count,
    {
        self.inexistent_count.increment(tool_name);
    }
}

impl Clone for Stats {
    fn clone(&self) -> (r: Self)
        ensures
            r.same_counts(self),
    {
        Stats {
            success_count: self.success_count.clone(),
            error_count: self.error_count.clone(),
            inexistent_count: self.inexistent_count.clone(),
        }
    }
}

impl Default for Stats {
    fn default() -> (s: Self)
        ensures
            s.success_count.counts() == Map::<Seq<char>, nat>::empty(),
            s.error_count.counts() == Map::<Seq<char>, nat>::empty(),
            s.inexistent_count.counts() == Map::<Seq<char>, nat>::empty(),
    {
        Stats::new()
    }
}

} // verus!

verus! {

use super::{ToolInvocationInput, choose_invocation};
use super::invocation::ExtractedInvocations;
use crate::text::push_str;

/// Result of invoking a tool.
#[allow(inconsistent_fields)]
pub enum InvokeResult {
    /// No invocation found in the message
    NoInvocationsFound {
        /// The error that occurred
        e: Error,
    },
    /// No valid invocation found in the message
    NoValidInvocationsFound {
        /// The error that occurred
        e: Error,
        /// The number of invocations found in the message
        invocation_count: usize,
    },
    /// Successful invocation
    Success {
        /// The number of invocations found in the message
        invocation_count: usize,
        /// The name of the tool that was invoked
        tool_name: String,
        /// The extracted input for the tool
        extracted_input: String,
        /// The result of the invocation
        result: String,
    },
    /// Error during invocation
    Error {
        /// The number of invocations found in the message
        invocation_count: usize,
        /// The name of the tool that was invoked
        tool_name: String,
        /// The extracted input for the tool
        extracted_input: String,
        /// The error that occurred
        e: ToolUseError,
    },
}

impl Clone for InvokeResult {
    fn clone(&self) -> (r: Self)
        ensures
            r == *self,
    {
        match self {
            InvokeResult::NoInvocationsFound { e } => InvokeResult::NoInvocationsFound { e: e.clone() },
            InvokeResult::NoValidInvocationsFound { e, invocation_count } =>
                InvokeResult::NoValidInvocationsFound { e: e.clone(), invocation_count: *invocation_count },
            InvokeResult::Success { invocation_count, tool_name, extracted_input, result } =>
                InvokeResult::Success {
                    invocation_count: *invocation_count,
                    tool_name: tool_name.clone(),
                    extracted_input: extracted_input.clone(),
                    result: result.clone(),
                },
            InvokeResult::Error { invocation_count, tool_name, extracted_input, e } =>
                InvokeResult::Error {
                    invocation_count: *invocation_count,
                    tool_name: tool_name.clone(),
                    extracted_input: extracted_input.clone(),
                    e: e.clone(),
                },
        }
    }
}

/// The YAML text of a value (`serde_yaml::to_string`), when it can be
/// serialized.
pub uninterp spec fn yaml_text(v: serde_yaml::Value) -> Option<Seq<char>>;

/// The YAML text of a value (`serde_yaml::to_string`), `None` when it
/// cannot be serialized.
#[verifier::external_body]
fn to_yaml_text(v: &serde_yaml::Value) -> (r: Option<String>)
    ensures
        r matches Some(s) ==> yaml_text(*v) == Some(s@),
        r is None ==> yaml_text(*v) is None,
{
    serde_yaml::to_string(v).ok()
}

/// The YAML text of a value, or the note that it could not be serialized.
pub open spec fn yaml_text_or(v: serde_yaml::Value, what: Seq<char>, tool_name: Seq<char>) -> Seq<char> {
    match yaml_text(v) {
        Some(s) => s,
        None => "Failed to serialize "@ + what + " for tool "@ + tool_name,
    }
}

fn text_or_note(v: &serde_yaml::Value, what: &str, tool_name: &str) -> (r: String)
    ensures
        r@ == yaml_text_or(*v, what@, tool_name@),
{
    match to_yaml_text(v) {
        Some(s) => s,
        None => {
            let mut s = String::from_str("Failed to serialize ");
            push_str(&mut s, what);
            push_str(&mut s, " for tool ");
            push_str(&mut s, tool_name);
            s
        },
    }
}

/// A tool invocation ready to be run.
pub struct PlannedInvocation {
    /// The number of invocations found in the message
    pub invocation_count: usize,
    /// The name of the tool to invoke
    pub tool_name: String,
    /// The input, as YAML text
    pub extracted_input: String,
    /// The input of the tool
    pub input: serde_yaml::Value,
}

/// Decide what to invoke from the invocations found in a message: the
/// first one; when there is none, the result of the invocation is known
/// already.
pub fn plan_invocation(found: Result<ExtractedInvocations<ToolInvocationInput>, Error>) -> (r: Result<PlannedInvocation, InvokeResult>)
    ensures
        match found {
            Err(e) => r == Err::<PlannedInvocation, InvokeResult>(InvokeResult::NoInvocationsFound { e }),
            Ok(x) => if x.invocations@.len() == 0 {
                r == Err::<PlannedInvocation, InvokeResult>(InvokeResult::NoValidInvocationsFound {
                    e: Error::NoInvocationFound,
                    invocation_count: 0,
                })
            } else {
                (r matches Ok(p) && {
                    &&& p.invocation_count == x.invocations@.len()
                    &&& p.tool_name == x.invocations@[0].tool_name
                    &&& p.input == x.invocations@[0].parameters
                    &&& p.extracted_input@ == yaml_text_or(
                        x.invocations@[0].parameters,
                        "input"@,
                        x.invocations@[0].tool_name@,
                    )
                })
            },
        },
{
    let tool_invocations = match found {
        Ok(invocations) => invocations,
        Err(e) => return Err(InvokeResult::NoInvocationsFound { e }),
    };
    let invocation_count = tool_invocations.invocations.len();
    let invocation = match choose_invocation(tool_invocations.invocations) {
        Ok(invocation) => invocation,
        Err(e) => return Err(InvokeResult::NoValidInvocationsFound { e, invocation_count }),
    };
    let extracted_input = text_or_note(&invocation.parameters, "input", invocation.tool_name.as_str());
    Ok(PlannedInvocation {
        invocation_count,
        tool_name: invocation.tool_name,
        extracted_input,
        input: invocation.parameters,
    })
}

/// The result of a planned invocation, given what the tool returned.
pub fn complete_invocation(plan: PlannedInvocation, result: Result<serde_yaml::Value, ToolUseError>) -> (r: InvokeResult)
    ensures
        match result {
            Ok(output) => (r matches InvokeResult::Success { invocation_count, tool_name, extracted_input, result } && {
                &&& invocation_count == plan.invocation_count
                &&& tool_name == plan.tool_name
                &&& extracted_input == plan.extracted_input
                &&& result@ == yaml_text_or(output, "output"@, plan.tool_name@)
            }),
            Err(e) => r == (InvokeResult::Error {
                invocation_count: plan.invocation_count,
                tool_name: plan.tool_name,
                extracted_input: plan.extracted_input,
                e,
            }),
        },
{
    match result {
        Ok(output) => {
            let result = text_or_note(&output, "output", plan.tool_name.as_str());
            InvokeResult::Success {
                tool_name: plan.tool_name,
                extracted_input: plan.extracted_input,
                invocation_count: plan.invocation_count,
                result,
            }
        },
        Err(e) => InvokeResult::Error {
            tool_name: plan.tool_name,
            extracted_input: plan.extracted_input,
            invocation_count: plan.invocation_count,
            e,
        },
    }
}

} // verus!

verus! {

use crate::text::{contains_text, strings_view};

/// The kind of a tool, which decides how it is invoked.
#[derive(Clone, Copy, PartialEq, Eq, Structural)]
pub enum ToolKind {
    /// A tool that can terminate a chain of exchanges
    Terminal,
    /// A tool
    Simple,
    /// A tool that can invoke another tool (not an advanced one)
    Advanced,
}

/// A toolbox: the names of its tools, by kind, and the statistics of their
/// use. The tools themselves are run by their owner, under these names.
pub struct Toolbox {
    terminal_tools: Vec<String>,
    tools: Vec<String>,
    advanced_tools: Vec<String>,
    stats: Stats,
}

/// The kind of tool a name invokes: an advanced tool first, when advanced
/// tools may be invoked, then a terminal tool, then a tool.
pub open spec fn route_of(
    terminal: Seq<Seq<char>>,
    simple: Seq<Seq<char>>,
    advanced: Seq<Seq<char>>,
    name: Seq<char>,
    with_advanced: bool,
) -> Option<ToolKind> {
    if with_advanced && advanced.contains(name) {
        Some(ToolKind::Advanced)
    } else if terminal.contains(name) {
        Some(ToolKind::Terminal)
    } else if simple.contains(name) {
        Some(ToolKind::Simple)
    } else {
        None
    }
}

/// A name is routed to a tool exactly when a tool holds it: a terminal or
/// a simple tool, or an advanced tool when advanced tools may be invoked. A
/// terminal tool's name goes to that terminal tool unless advanced tools
/// may be invoked and an advanced tool holds the name too; without advanced
/// tools, no name goes to an advanced tool; and allowing advanced tools
/// changes where a name goes only for the names of advanced tools, which
/// then go to them.
pub proof fn lemma_route_finds_held_names(
    terminal: Seq<Seq<char>>,
    simple: Seq<Seq<char>>,
    advanced: Seq<Seq<char>>,
    name: Seq<char>,
    with_advanced: bool,
)
    ensures
        route_of(terminal, simple, advanced, name, with_advanced) is Some <==> (terminal.contains(name)
            || simple.contains(name) || (with_advanced && advanced.contains(name))),
        terminal.contains(name) && !(with_advanced && advanced.contains(name)) ==> route_of(
            terminal,
            simple,
            advanced,
            name,
            with_advanced,
        ) == Some(ToolKind::Terminal),
        route_of(terminal, simple, advanced, name, false) != Some(ToolKind::Advanced),
        route_of(terminal, simple, advanced, name, false) != route_of(terminal, simple, advanced, name, true)
            ==> advanced.contains(name) && route_of(terminal, simple, advanced, name, true) == Some(
            ToolKind::Advanced,
        ),
{
}

impl Toolbox {
    /// The names of the terminal tools.
    pub closed spec fn terminal_names(&self) -> Seq<Seq<char>> {
        strings_view(self.terminal_tools@)
    }

    /// The names of the tools.
    pub closed spec fn tool_names(&self) -> Seq<Seq<char>> {
        strings_view(self.tools@)
    }

    /// The names of the advanced tools.
    pub closed spec fn advanced_names(&self) -> Seq<Seq<char>> {
        strings_view(self.advanced_tools@)
    }

    /// The statistics of the use of the tools.
    pub closed spec fn stats_view(&self) -> Stats {
        self.stats
    }

    /// The kind of tool a name invokes, if any.
    pub open spec fn route_spec(&self, name: Seq<char>, with_advanced: bool) -> Option<ToolKind> {
        route_of(self.terminal_names(), self.tool_names(), self.advanced_names(), name, with_advanced)
    }

    /// An empty toolbox.
    pub fn new() -> (t: Self)
        ensures
            t.terminal_names() == Seq::<Seq<char>>::empty(),
            t.tool_names() == Seq::<Seq<char>>::empty(),
            t.advanced_names() == Seq::<Seq<char>>::empty(),
            t.stats_view().is_empty(),
    {
        let t = Toolbox { terminal_tools: Vec::new(), tools: Vec::new(), advanced_tools: Vec::new(), stats: Stats::new() };
        assert(strings_view(t.terminal_tools@) =~= Seq::<Seq<char>>::empty());
        assert(strings_view(t.tools@) =~= Seq::<Seq<char>>::empty());
        assert(strings_view(t.advanced_tools@) =~= Seq::<Seq<char>>::empty());
        t
    }

    /// Add a terminal tool: a tool that can terminate a chain of exchanges.
    pub fn add_terminal_tool(&mut self, name: &str)
        ensures
            final(self).terminal_names() == old(self).terminal_names().push(name@),
            final(self).tool_names() == old(self).tool_names(),
            final(self).advanced_names() == old(self).advanced_names(),
            final(self).stats_view() == old(self).stats_view(),
    {
        self.terminal_tools.push(String::from_str(name));
        assert(strings_view(self.terminal_tools@) =~= strings_view(old(self).terminal_tools@).push(name@));
    }

    /// Add a tool.
    pub fn add_tool(&mut self, name: &str)
        ensures
            final(self).terminal_names() == old(self).terminal_names(),
            final(self).tool_names() == old(self).tool_names().push(name@),
            final(self).advanced_names() == old(self).advanced_names(),
            final(self).stats_view() == old(self).stats_view(),
    {
        self.tools.push(String::from_str(name));
        assert(strings_view(self.tools@) =~= strings_view(old(self).tools@).push(name@));
    }

    /// Add an advanced tool: a tool that can invoke another tool.
    pub fn add_advanced_tool(&mut self, name: &str)
        ensures
            final(self).terminal_names() == old(self).terminal_names(),
            final(self).tool_names() == old(self).tool_names(),
            final(self).advanced_names() == old(self).advanced_names().push(name@),
            final(self).stats_view() == old(self).stats_view(),
    {
        self.advanced_tools.push(String::from_str(name));
        assert(strings_view(self.advanced_tools@) =~= strings_view(old(self).advanced_tools@).push(name@));
    }

    /// Does the toolbox hold at least one terminal tool?
    pub fn has_terminal_tools(&self) -> (b: bool)
        ensures
            b == (self.terminal_names().len() > 0),
    {
        self.terminal_tools.len() > 0
    }

    /// The statistics of the use of the tools.
    pub fn stats(&self) -> (s: Stats)
        ensures
            s.same_counts(&self.stats_view()),
    {
        self.stats.clone()
    }

    /// Forget the statistics.
    pub fn reset_stats(&mut self)
        ensures
            final(self).stats_view().is_empty(),
            final(self).terminal_names() == old(self).terminal_names(),
            final(self).tool_names() == old(self).tool_names(),
            final(self).advanced_names() == old(self).advanced_names(),
    {
        self.stats = Stats::new();
    }

    /// The kind of tool `tool_name` invokes - an advanced tool first, when
    /// `with_advanced`, then a terminal tool, then a tool; a name of no tool
    /// is counted as an inexistent tool and is an error.
    pub fn route(&mut self, tool_name: &str, with_advanced: bool) -> (r: Result<ToolKind, ToolUseError>)
        requires
            old(self).stats_view().inexistent_count.count(tool_name@) < usize::MAX,
        ensures
            final(self).terminal_names() == old(self).terminal_names(),
            final(self).tool_names() == old(self).tool_names(),
            final(self).advanced_names() == old(self).advanced_names(),
            match old(self).route_spec(tool_name@, with_advanced) {
                Some(k) => r == Ok::<ToolKind, ToolUseError>(k) && final(self).stats_view() == old(self).stats_view(),
                None => (r matches Err(ToolUseError::ToolNotFound(n)) && n@ == tool_name@)
                    && final(self).stats_view().inexistent_count.counts() == old(self).stats_view().inexistent_count.counts().insert(
                    tool_name@,
                    old(self).stats_view().inexistent_count.count(tool_name@) + 1,
                ) && final(self).stats_view().success_count == old(self).stats_view().success_count
                    && final(self).stats_view().error_count == old(self).stats_view().error_count,
            },
    {
        if with_advanced && contains_text(&self.advanced_tools, tool_name) {
            Ok(ToolKind::Advanced)
        } else if contains_text(&self.terminal_tools, tool_name) {
            Ok(ToolKind::Terminal)
        } else if contains_text(&self.tools, tool_name) {
            Ok(ToolKind::Simple)
        } else {
            self.stats.report_inexistent(tool_name);
            Err(ToolUseError::ToolNotFound(String::from_str(tool_name)))
        }
    }

    /// Count the result of an invocation of `tool_name`, and hand it back.
    pub fn settle(&mut self, tool_name: &str, result: Result<serde_yaml::Value, ToolUseError>) -> (r: Result<
        serde_yaml::Value,
        ToolUseError,
    >)
        requires
            old(self).stats_view().success_count.count(tool_name@) < usize::MAX,
            old(self).stats_view().error_count.count(tool_name@) < usize::MAX,
        ensures
            r == result,
            final(self).terminal_names() == old(self).terminal_names(),
            final(self).tool_names() == old(self).tool_names(),
            final(self).advanced_names() == old(self).advanced_names(),
            final(self).stats_view().inexistent_count == old(self).stats_view().inexistent_count,
            result is Ok ==> final(self).stats_view().success_count.counts() == old(self).stats_view().success_count.counts().insert(
                tool_name@,
                old(self).stats_view().success_count.count(tool_name@) + 1,
            ) && final(self).stats_view().error_count == old(self).stats_view().error_count,
            result is Err ==> final(self).stats_view().error_count.counts() == old(self).stats_view().error_count.counts().insert(
                tool_name@,
                old(self).stats_view().error_count.count(tool_name@) + 1,
            ) && final(self).stats_view().success_count == old(self).stats_view().success_count,
    {
        if result.is_ok() {
            self.stats.report_success(tool_name);
        } else {
            self.stats.report_error(tool_name);
        }
        result
    }
}

} // verus!
