//! Maintain the context for the bot.

use vstd::prelude::*;

use crate::models::{
    entries_view, examples_view, ChatEntryTokenNumber, ChatInput, ChatInputView, Role,
};

verus! {

/// The content of a history entry.
pub struct EntryView {
    /// The role
    pub role: Role,
    /// The message
    pub msg: Seq<char>,
}

/// A history entry.
#[derive(Debug)]
pub struct ChatEntry {
    /// The role
    pub role: Role,
    /// The message
    pub msg: String,
}

impl View for ChatEntry {
    type V = EntryView;

    open spec fn view(&self) -> EntryView {
        EntryView { role: self.role, msg: self.msg@ }
    }
}

impl Clone for ChatEntry {
    fn clone(&self) -> (r: Self)
        ensures
            r == *self,
    {
        ChatEntry { role: self.role, msg: self.msg.clone() }
    }
}

/// An error that can occur when adding a prompt to the chat history.
#[derive(Debug, Clone, Copy, PartialEq, Eq, Structural)]
pub enum Error {
    /// The prompt is too long
    PromptTooLong,
}

/// The message of a chat history error (`e.to_string()`).
pub open spec fn history_error_message(e: Error) -> Seq<char> {
    match e {
        Error::PromptTooLong => "The prompt is too long"@,
    }
}

impl Error {
    /// The message of the error (`e.to_string()`).
    pub fn message(&self) -> (s: String)
        ensures
            s@ == history_error_message(*self),
    {
        match self {
            Error::PromptTooLong => String::from_str("The prompt is too long"),
        }
    }
}

/// Maintain a chat history that can be truncated (from the head) to ensure
/// we have enough tokens to complete the task.
///
/// The context is the part of the history that stays at the top of the
/// history; the examples follow it, and the chitchat is the rest of the
/// history. To keep enough tokens to complete the task, the examples and then
/// the chitchat are truncated from their head when new messages are added.
pub struct ChatHistory<'a, M> {
    /// The model that counts the tokens
    model: &'a M,
    /// The maximum number of tokens we can have in the input for the model
    max_token: usize,
    /// The minimum number of tokens we need to complete the task
    min_token_for_completion: usize,
    /// The 'context' - first messages.
    context: Vec<ChatEntry>,
    /// The examples
    examples: Vec<(ChatEntry, ChatEntry)>,
    /// The other messages
    chitchat: Vec<ChatEntry>,
}

impl<'a, M: ChatEntryTokenNumber> ChatHistory<'a, M> {
    /// The model that counts the tokens.
    pub closed spec fn model(&self) -> M {
        *self.model
    }

    /// The maximum number of tokens of an input.
    pub closed spec fn max_token(&self) -> nat {
        self.max_token as nat
    }

    /// The number of tokens kept for the completion.
    pub closed spec fn min_token_for_completion(&self) -> nat {
        self.min_token_for_completion as nat
    }

    /// The context entries.
    pub closed spec fn context(&self) -> Seq<EntryView> {
        entries_view(self.context@)
    }

    /// The examples.
    pub closed spec fn examples(&self) -> Seq<(EntryView, EntryView)> {
        examples_view(self.examples@)
    }

    /// The chitchat entries.
    pub closed spec fn chitchat(&self) -> Seq<EntryView> {
        entries_view(self.chitchat@)
    }

    /// The number of tokens available for an input.
    pub open spec fn budget(&self) -> int {
        self.max_token() - self.min_token_for_completion()
    }

    /// Does an input made of the context, `examples` and `chat` leave
    /// enough tokens for the completion?
    pub open spec fn fits(&self, examples: Seq<(EntryView, EntryView)>, chat: Seq<EntryView>) -> bool {
        input_fits(self.model(), self.budget(), self.context(), examples, chat)
    }

    /// The history keeps its model, limits and context.
    pub open spec fn same_setting(&self, other: &Self) -> bool {
        &&& self.model() == other.model()
        &&& self.max_token() == other.max_token()
        &&& self.min_token_for_completion() == other.min_token_for_completion()
        &&& self.context() == other.context()
    }

    /// The history keeps its model and limits.
    pub open spec fn same_setting_but_context(&self, other: &Self) -> bool {
        &&& self.model() == other.model()
        &&& self.max_token() == other.max_token()
        &&& self.min_token_for_completion() == other.min_token_for_completion()
    }

    /// What pruning leaves of the examples and of the chitchat, and what it
    /// returns (see [`prune`]).
    pub open spec fn pruned(&self) -> (Seq<(EntryView, EntryView)>, Seq<EntryView>, Result<nat, Error>) {
        prune(self.model(), self.budget(), self.context(), self.examples(), self.chitchat())
    }

    /// The examples and the chitchat once each of `entries` is added in
    /// turn, the history being pruned after each addition.
    pub open spec fn after(&self, entries: Seq<EntryView>) -> (Seq<(EntryView, EntryView)>, Seq<EntryView>) {
        after_adds(self.model(), self.budget(), self.context(), self.examples(), self.chitchat(), entries)
    }

    /// All the entries of the history: the context, the examples (each user
    /// entry followed by its assistant entry), then the chitchat.
    pub open spec fn entries(&self) -> Seq<EntryView> {
        self.context() + flatten_pairs(self.examples()) + self.chitchat()
    }
}

/// The chitchat once `entry` is added to `chat`: an entry replaces the last
/// one when both come from the same role, so that two consecutive entries
/// never share a role.
pub open spec fn add_entry(chat: Seq<EntryView>, entry: EntryView) -> Seq<EntryView> {
    if chat.len() > 0 && chat.last().role == entry.role {
        chat.drop_last().push(entry)
    } else {
        chat.push(entry)
    }
}

/// The examples made of (user prompt, assistant response) pairs.
pub open spec fn example_pairs(s: Seq<(String, String)>) -> Seq<(EntryView, EntryView)> {
    s.map_values(|p: (String, String)| (EntryView { role: Role::User, msg: p.0@ }, EntryView { role: Role::Assistant, msg: p.1@ }))
}

/// The examples and the chitchat once each of `entries` is added in turn
/// to the chitchat, the history being pruned after each addition.
pub open spec fn after_adds<M: ChatEntryTokenNumber>(
    model: M,
    budget: int,
    context: Seq<EntryView>,
    e: Seq<(EntryView, EntryView)>,
    c: Seq<EntryView>,
    entries: Seq<EntryView>,
) -> (Seq<(EntryView, EntryView)>, Seq<EntryView>)
    decreases entries.len(),
{
    if entries.len() == 0 {
        (e, c)
    } else {
        let prev = after_adds(model, budget, context, e, c, entries.drop_last());
        let p = prune(model, budget, context, prev.0, add_entry(prev.1, entries.last()));
        (p.0, p.1)
    }
}

/// Adding the entries and then one more is adding that one to what the
/// entries left.
pub proof fn lemma_after_adds_push<M: ChatEntryTokenNumber>(
    model: M,
    budget: int,
    context: Seq<EntryView>,
    e: Seq<(EntryView, EntryView)>,
    c: Seq<EntryView>,
    entries: Seq<EntryView>,
    x: EntryView,
)
    ensures
        ({
            let p = after_adds(model, budget, context, e, c, entries);
            let q = prune(model, budget, context, p.0, add_entry(p.1, x));
            after_adds(model, budget, context, e, c, entries.push(x)) == (q.0, q.1)
        }),
{
    assert(entries.push(x).drop_last() =~= entries);
}

/// The example pairs, each user entry followed by its assistant entry.
pub open spec fn flatten_pairs(s: Seq<(EntryView, EntryView)>) -> Seq<EntryView> {
    Seq::new(2 * s.len(), |i: int| if i % 2 == 0 { s[i / 2].0 } else { s[i / 2].1 })
}

/// What pruning leaves of the examples and of the chitchat, and what it
/// returns: the fewest oldest examples are dropped so that the input fits;
/// if dropping all of them is not enough, the fewest oldest chitchat entries
/// are dropped too, always keeping the last one, and the history is too long
/// if even that one alone does not fit. An empty chitchat is left as it is.
pub open spec fn prune<M: ChatEntryTokenNumber>(
    model: M,
    budget: int,
    context: Seq<EntryView>,
    e: Seq<(EntryView, EntryView)>,
    c: Seq<EntryView>,
) -> (Seq<(EntryView, EntryView)>, Seq<EntryView>, Result<nat, Error>) {
    if c.len() == 0 {
        (e, c, Ok(0))
    } else if exists|k: int| first_fitting_examples(model, budget, context, e, c, k) {
        let k = choose|k: int| first_fitting_examples(model, budget, context, e, c, k);
        (e.skip(k), c, Ok(c.len()))
    } else if exists|j: int| first_fitting_chat(model, budget, context, c, j) {
        let j = choose|j: int| first_fitting_chat(model, budget, context, c, j);
        (Seq::empty(), c.skip(j), Ok((c.len() - j) as nat))
    } else {
        (Seq::empty(), c.skip(c.len() - 1), Err(Error::PromptTooLong))
    }
}

/// Pruning a chitchat that is not empty keeps its last entry; what it
/// keeps of the examples and of the chitchat are their most recent ones;
/// and when it succeeds, the input it leaves fits the budget.
pub proof fn lemma_prune_fits<M: ChatEntryTokenNumber>(
    model: M,
    budget: int,
    context: Seq<EntryView>,
    e: Seq<(EntryView, EntryView)>,
    c: Seq<EntryView>,
)
    requires
        c.len() > 0,
    ensures
        ({
            let p = prune(model, budget, context, e, c);
            &&& p.2 is Ok ==> input_fits(model, budget, context, p.0, p.1)
            &&& exists|k: int| 0 <= k <= e.len() && p.0 == e.skip(k)
            &&& exists|j: int| 0 <= j < c.len() && p.1 == c.skip(j)
            &&& p.1.len() > 0
            &&& p.1.last() == c.last()
        }),
{
    let p = prune(model, budget, context, e, c);
    if exists|k: int| first_fitting_examples(model, budget, context, e, c, k) {
        let k = choose|k: int| first_fitting_examples(model, budget, context, e, c, k);
        assert(p.1 == c.skip(0));
    } else if exists|j: int| first_fitting_chat(model, budget, context, c, j) {
        let j = choose|j: int| first_fitting_chat(model, budget, context, c, j);
        assert(p.0 == e.skip(e.len() as int));
    } else {
        assert(p.0 == e.skip(e.len() as int));
    }
}

/// No two consecutive entries share a role.
pub open spec fn alternates(chat: Seq<EntryView>) -> bool {
    forall|i: int, j: int| 0 <= i && j == i + 1 && j < chat.len() ==> #[trigger] chat[i].role != #[trigger] chat[j].role
}

proof fn lemma_add_entry_alternates(c: Seq<EntryView>, entry: EntryView)
    requires
        alternates(c),
    ensures
        alternates(add_entry(c, entry)),
        add_entry(c, entry).len() > 0,
        add_entry(c, entry).last() == entry,
{
    let a = add_entry(c, entry);
    if c.len() > 0 && c.last().role == entry.role {
        assert forall|i: int, j: int| 0 <= i && j == i + 1 && j < a.len() implies #[trigger] a[i].role
            != #[trigger] a[j].role by {
            assert(a[i] == c[i]);
            if j < a.len() - 1 {
                assert(a[j] == c[j]);
            } else {
                assert(c[i].role != c[j].role);
            }
        }
    } else {
        assert forall|i: int, j: int| 0 <= i && j == i + 1 && j < a.len() implies #[trigger] a[i].role
            != #[trigger] a[j].role by {
            assert(a[i] == c[i]);
            if j < c.len() {
                assert(a[j] == c[j]);
            }
        }
    }
}

proof fn lemma_skip_alternates(a: Seq<EntryView>, j: int)
    requires
        alternates(a),
        0 <= j < a.len(),
    ensures
        alternates(a.skip(j)),
        a.skip(j).len() > 0,
        a.skip(j).last() == a.last(),
{
    let s = a.skip(j);
    assert forall|i: int, k: int| 0 <= i && k == i + 1 && k < s.len() implies #[trigger] s[i].role
        != #[trigger] s[k].role by {
        assert(s[i] == a[i + j]);
        assert(s[k] == a[k + j]);
    }
}

/// Adding an entry to the chitchat, as `add_chitchat` does, keeps two
/// consecutive entries from sharing a role, and the entry added is the last
/// one, whatever pruning drops.
pub proof fn lemma_add_chitchat_alternates<M: ChatEntryTokenNumber>(
    model: M,
    budget: int,
    context: Seq<EntryView>,
    e: Seq<(EntryView, EntryView)>,
    c: Seq<EntryView>,
    entry: EntryView,
)
    requires
        alternates(c),
    ensures
        alternates(prune(model, budget, context, e, add_entry(c, entry)).1),
        prune(model, budget, context, e, add_entry(c, entry)).1.len() > 0,
        prune(model, budget, context, e, add_entry(c, entry)).1.last() == entry,
{
    let a = add_entry(c, entry);
    lemma_add_entry_alternates(c, entry);
    lemma_prune_fits(model, budget, context, e, a);
    let q = prune(model, budget, context, e, a).1;
    let j = choose|j: int| 0 <= j < a.len() && q == a.skip(j);
    lemma_skip_alternates(a, j);
}

/// Does the input made of `context`, `examples` and `chat` count no more
/// tokens than `budget`?
pub open spec fn input_fits<M: ChatEntryTokenNumber>(
    model: M,
    budget: int,
    context: Seq<EntryView>,
    examples: Seq<(EntryView, EntryView)>,
    chat: Seq<EntryView>,
) -> bool {
    model.token_count(ChatInputView { context, examples, chat }) <= budget
}

/// `k` is the fewest number of oldest examples whose removal makes the input fit.
pub open spec fn first_fitting_examples<M: ChatEntryTokenNumber>(
    model: M,
    budget: int,
    context: Seq<EntryView>,
    examples: Seq<(EntryView, EntryView)>,
    chat: Seq<EntryView>,
    k: int,
) -> bool {
    &&& 0 <= k < examples.len()
    &&& input_fits(model, budget, context, examples.skip(k), chat)
    &&& forall|i: int|
        0 <= i < k ==> !input_fits(model, budget, context, #[trigger] examples.skip(i), chat)
}

/// Without examples, `j` is the fewest number of oldest chat entries whose
/// removal makes the input fit, keeping at least the last one.
pub open spec fn first_fitting_chat<M: ChatEntryTokenNumber>(
    model: M,
    budget: int,
    context: Seq<EntryView>,
    chat: Seq<EntryView>,
    j: int,
) -> bool {
    &&& 0 <= j < chat.len()
    &&& input_fits(model, budget, context, Seq::empty(), chat.skip(j))
    &&& forall|i: int|
        0 <= i < j ==> !input_fits(model, budget, context, Seq::empty(), #[trigger] chat.skip(i))
}

fn clone_entries(v: &Vec<ChatEntry>) -> (r: Vec<ChatEntry>)
    ensures
        r@ == v@,
{
    let mut r: Vec<ChatEntry> = Vec::new();
    for i in 0..v.len()
        invariant
            r@ == v@.take(i as int),
    {
        r.push(v[i].clone());
        assert(r@ =~= v@.take(i + 1));
    }
    assert(v@.take(v.len() as int) =~= v@);
    r
}

fn clone_examples(v: &Vec<(ChatEntry, ChatEntry)>) -> (r: Vec<(ChatEntry, ChatEntry)>)
    ensures
        r@ == v@,
{
    let mut r: Vec<(ChatEntry, ChatEntry)> = Vec::new();
    for i in 0..v.len()
        invariant
            r@ == v@.take(i as int),
    {
        let p = &v[i];
        r.push((p.0.clone(), p.1.clone()));
        assert(r@ =~= v@.take(i + 1));
    }
    assert(v@.take(v.len() as int) =~= v@);
    r
}

impl<'a, M: ChatEntryTokenNumber> ChatHistory<'a, M> {
    /// Create a new chat history.
    pub fn new(model: &'a M, max_token: usize, min_token_for_completion: usize) -> (h: Self)
        ensures
            h.model() == *model,
            h.max_token() == max_token,
            h.min_token_for_completion() == min_token_for_completion,
            h.context() == Seq::<EntryView>::empty(),
            h.examples() == Seq::<(EntryView, EntryView)>::empty(),
            h.chitchat() == Seq::<EntryView>::empty(),
    {
        let h = ChatHistory {
            model,
            max_token,
            min_token_for_completion,
            context: Vec::new(),
            examples: Vec::new(),
            chitchat: Vec::new(),
        };
        assert(h.context() =~= Seq::<EntryView>::empty());
        assert(h.examples() =~= Seq::<(EntryView, EntryView)>::empty());
        assert(h.chitchat() =~= Seq::<EntryView>::empty());
        h
    }

    /// Prepare the input for the model.
    pub fn make_input(&self) -> (input: ChatInput)
        ensures
            input@ == (ChatInputView {
                context: self.context(),
                examples: self.examples(),
                chat: self.chitchat(),
            }),
    {
        ChatInput {
            context: clone_entries(&self.context),
            examples: clone_examples(&self.examples),
            chat: clone_entries(&self.chitchat),
        }
    }

    /// Prune the examples, then the chitchat, from their head until the
    /// input leaves enough tokens to complete the task; returns the number
    /// of chitchat entries kept.
    pub fn purge(&mut self) -> (r: Result<usize, Error>)
        requires
            old(self).chitchat().len() > 0 ==> old(self).model().counts_tokens(),
            old(self).chitchat().len() > 1 || (old(self).chitchat().len() == 1 && old(self).examples().len() > 0)
                ==> old(self).min_token_for_completion() <= old(self).max_token(),
        ensures
            final(self).same_setting(old(self)),
            final(self).examples() == old(self).pruned().0,
            final(self).chitchat() == old(self).pruned().1,
            match r {
                Ok(n) => old(self).pruned().2 == Ok::<nat, Error>(n as nat),
                Err(e) => old(self).pruned().2 == Err::<nat, Error>(e),
            },
    {
        let ghost model = self.model();
        let ghost ctx = self.context();
        let ghost e0 = self.examples();
        let ghost c0 = self.chitchat();
        if self.chitchat.len() == 0 {
            return Ok(0);
        }
        // with no examples and a single entry, the budget may be below zero,
        // which leaves room for no input
        let budget: i128 = self.max_token as i128 - self.min_token_for_completion as i128;
        let ghost b = budget as int;
        assert(b == old(self).budget());
        let ghost mut k: int = 0;
        assert(e0.skip(0) =~= e0);
        while self.examples.len() > 0
            invariant
                self.same_setting(old(self)),
                model == self.model(),
                model.counts_tokens(),
                ctx == self.context(),
                b == budget as int,
                b == self.budget(),
                self.chitchat() == c0,
                0 <= k <= e0.len(),
                self.examples() == e0.skip(k),
                forall|i: int| 0 <= i < k ==> !input_fits(model, b, ctx, #[trigger] e0.skip(i), c0),
                c0.len() > 0,
                e0 == old(self).examples(),
                c0 == old(self).chitchat(),
            decreases self.examples.len(),
        {
            let input = self.make_input();
            let n = self.model.num_tokens(&input);
            assert(self.examples@.len() > 0);
            assert(self.examples().len() == self.examples@.len());
            assert(k < e0.len());
            assert(n as nat == model.token_count(ChatInputView { context: ctx, examples: e0.skip(k), chat: c0 }));
            if (n as i128) <= budget {
                assert(input_fits(model, b, ctx, e0.skip(k), c0));
                assert(first_fitting_examples(model, b, ctx, e0, c0, k));
                let ghost kk = choose|kk: int| first_fitting_examples(model, b, ctx, e0, c0, kk);
                assert(kk == k) by {
                    if kk < k {
                        assert(!input_fits(model, b, ctx, e0.skip(kk), c0));
                    } else if kk > k {
                        assert(!input_fits(model, b, ctx, e0.skip(k), c0));
                    }
                }
                return Ok(self.chitchat.len());
            }
            let ghost before = self.examples@;
            self.examples.remove(0);
            proof {
                assert(self.examples@ =~= before.subrange(1, before.len() as int));
                assert(examples_view(self.examples@) =~= examples_view(before).skip(1));
                assert(e0.skip(k).skip(1) =~= e0.skip(k + 1));
                assert(self.examples() =~= e0.skip(k + 1));
                k = k + 1;
            }
        }
        assert(!exists|kk: int| first_fitting_examples(model, b, ctx, e0, c0, kk)) by {
            if exists|kk: int| first_fitting_examples(model, b, ctx, e0, c0, kk) {
                let kk = choose|kk: int| first_fitting_examples(model, b, ctx, e0, c0, kk);
                assert(!input_fits(model, b, ctx, e0.skip(kk), c0));
            }
        }
        assert(self.examples() =~= Seq::<(EntryView, EntryView)>::empty());
        let ghost mut j: int = 0;
        assert(c0.skip(0) =~= c0);
        while self.chitchat.len() > 1
            invariant
                self.same_setting(old(self)),
                model == self.model(),
                model.counts_tokens(),
                ctx == self.context(),
                b == budget as int,
                b == self.budget(),
                self.examples() == Seq::<(EntryView, EntryView)>::empty(),
                0 <= j < c0.len(),
                self.chitchat() == c0.skip(j),
                forall|i: int|
                    0 <= i < j ==> !input_fits(model, b, ctx, Seq::empty(), #[trigger] c0.skip(i)),
                !exists|kk: int| first_fitting_examples(model, b, ctx, e0, c0, kk),
                e0 == old(self).examples(),
                c0 == old(self).chitchat(),
            decreases self.chitchat.len(),
        {
            let input = self.make_input();
            let n = self.model.num_tokens(&input);
            assert(self.chitchat().len() == self.chitchat@.len());
            assert(j < c0.len() - 1);
            if (n as i128) <= budget {
                assert(input_fits(model, b, ctx, Seq::empty(), c0.skip(j)));
                assert(first_fitting_chat(model, b, ctx, c0, j));
                let ghost jj = choose|jj: int| first_fitting_chat(model, b, ctx, c0, jj);
                assert(jj == j) by {
                    if jj < j {
                        assert(!input_fits(model, b, ctx, Seq::empty(), c0.skip(jj)));
                    } else if jj > j {
                        assert(!input_fits(model, b, ctx, Seq::empty(), c0.skip(j)));
                    }
                }
                return Ok(self.chitchat.len());
            }
            let ghost before = self.chitchat@;
            self.chitchat.remove(0);
            proof {
                assert(self.chitchat@ =~= before.subrange(1, before.len() as int));
                assert(entries_view(self.chitchat@) =~= entries_view(before).skip(1));
                assert(c0.skip(j).skip(1) =~= c0.skip(j + 1));
                assert(self.chitchat() =~= c0.skip(j + 1));
                j = j + 1;
            }
        }
        assert(j == c0.len() - 1);
        let input = self.make_input();
        let n = self.model.num_tokens(&input);
        if (n as i128) <= budget {
            assert(input_fits(model, b, ctx, Seq::empty(), c0.skip(j)));
            assert(first_fitting_chat(model, b, ctx, c0, j));
            let ghost jj = choose|jj: int| first_fitting_chat(model, b, ctx, c0, jj);
            assert(jj == j) by {
                if jj < j {
                    assert(!input_fits(model, b, ctx, Seq::empty(), c0.skip(jj)));
                }
            }
            return Ok(self.chitchat.len());
        }
        assert(!exists|jj: int| first_fitting_chat(model, b, ctx, c0, jj)) by {
            if exists|jj: int| first_fitting_chat(model, b, ctx, c0, jj) {
                let jj = choose|jj: int| first_fitting_chat(model, b, ctx, c0, jj);
                assert(!input_fits(model, b, ctx, Seq::empty(), c0.skip(jj)));
            }
        }
        Err(Error::PromptTooLong)
    }
}

} // verus!

verus! {

/// A trait for formatting entries for the chat history.
pub trait ChatEntryFormatter {
    /// What the formatter makes of an entry.
    spec fn formatted(&self, entry: EntryView) -> Seq<char>;

    /// Format the entry.
    fn format(&self, entry: &ChatEntry) -> (s: String)
        ensures
            s@ == self.formatted(entry@),
    ;
}

/// Format each entry with `formatter`.
pub fn format_entries<T: ChatEntryFormatter + ?Sized>(formatter: &T, entries: &Vec<ChatEntry>) -> (r: Vec<String>)
    ensures
        r@.len() == entries@.len(),
        forall|i: int| 0 <= i < r@.len() ==> #[trigger] r@[i]@ == formatter.formatted(entries@[i]@),
{
    let mut r: Vec<String> = Vec::new();
    for i in 0..entries.len()
        invariant
            r@.len() == i,
            forall|k: int| 0 <= k < i ==> #[trigger] r@[k]@ == formatter.formatted(entries@[k]@),
    {
        r.push(formatter.format(&entries[i]));
    }
    r
}

/// A dump of the chat history.
pub struct ChatHistoryDump {
    /// the messages
    pub messages: Vec<ChatEntry>,
}

impl ChatHistoryDump {
    /// Format the history using the given formatter.
    pub fn format<T: ChatEntryFormatter + ?Sized>(&self, formatter: &T) -> (r: Vec<String>)
        ensures
            r@.len() == self.messages@.len(),
            forall|i: int| 0 <= i < r@.len() ==> #[trigger] r@[i]@ == formatter.formatted(self.messages@[i]@),
    {
        format_entries(formatter, &self.messages)
    }
}

impl<'a, M: ChatEntryTokenNumber> ChatHistory<'a, M> {
    /// Set the context messages.
    pub fn set_context(&mut self, context: Vec<ChatEntry>)
        ensures
            final(self).model() == old(self).model(),
            final(self).max_token() == old(self).max_token(),
            final(self).min_token_for_completion() == old(self).min_token_for_completion(),
            final(self).context() == entries_view(context@),
            final(self).examples() == old(self).examples(),
            final(self).chitchat() == old(self).chitchat(),
    {
        self.context = context;
    }

    /// Add an example - a user prompt and the assistant's response - to the
    /// history.
    pub fn add_example(&mut self, user: String, bot: String)
        ensures
            final(self).same_setting(old(self)),
            final(self).examples() == old(self).examples().push(
                (EntryView { role: Role::User, msg: user@ }, EntryView { role: Role::Assistant, msg: bot@ }),
            ),
            final(self).chitchat() == old(self).chitchat(),
    {
        let msg_user = ChatEntry { role: Role::User, msg: user };
        let msg_bot = ChatEntry { role: Role::Assistant, msg: bot };
        self.examples.push((msg_user, msg_bot));
        assert(self.examples() =~= old(self).examples().push(
            (EntryView { role: Role::User, msg: user@ }, EntryView { role: Role::Assistant, msg: bot@ }),
        ));
    }

    /// Is the chitchat empty?
    pub fn is_chitchat_empty(&self) -> (b: bool)
        ensures
            b == (self.chitchat().len() == 0),
    {
        self.chitchat.len() == 0
    }

    /// Add a message to the chitchat history - replacing the last one when
    /// it comes from the same role - and prune the history if needed;
    /// returns the number of messages in the chitchat history.
    pub fn add_chitchat(&mut self, entry: ChatEntry) -> (r: Result<usize, Error>)
        requires
            old(self).model().counts_tokens(),
            add_entry(old(self).chitchat(), entry@).len() > 1 || old(self).examples().len() > 0
                ==> old(self).min_token_for_completion() <= old(self).max_token(),
        ensures
            final(self).same_setting(old(self)),
            ({
                let p = prune(
                    old(self).model(),
                    old(self).budget(),
                    old(self).context(),
                    old(self).examples(),
                    add_entry(old(self).chitchat(), entry@),
                );
                &&& final(self).examples() == p.0
                &&& final(self).chitchat() == p.1
                &&& match r {
                    Ok(n) => p.2 == Ok::<nat, Error>(n as nat),
                    Err(e) => p.2 == Err::<nat, Error>(e),
                }
            }),
    {
        let ghost c0 = self.chitchat();
        let ghost ev = entry@;
        let n = self.chitchat.len();
        if n > 0 && self.chitchat[n - 1].role == entry.role {
            self.chitchat.pop();
            assert(self.chitchat() =~= c0.drop_last());
        }
        self.chitchat.push(entry);
        assert(self.chitchat() =~= add_entry(c0, ev));
        self.purge()
    }

    /// All the entries of the history: the context, the examples, then the
    /// chitchat.
    pub fn iter(&self) -> (r: Vec<ChatEntry>)
        ensures
            entries_view(r@) == self.entries(),
    {
        let mut r = clone_entries(&self.context);
        let ghost ex = self.examples();
        assert(flatten_pairs(ex.take(0)) =~= Seq::<EntryView>::empty());
        for i in 0..self.examples.len()
            invariant
                ex == self.examples(),
                ex.len() == self.examples@.len(),
                entries_view(r@) == self.context() + flatten_pairs(ex.take(i as int)),
        {
            let p = &self.examples[i];
            let ghost r0 = r@;
            r.push(p.0.clone());
            r.push(p.1.clone());
            assert(entries_view(r@) =~= entries_view(r0).push(p.0@).push(p.1@));
            assert(ex[i as int] == (p.0@, p.1@));
            assert(flatten_pairs(ex.take(i + 1)) =~= flatten_pairs(ex.take(i as int)).push(ex[i as int].0).push(ex[i as int].1));
            assert(entries_view(r@) =~= self.context() + flatten_pairs(ex.take(i + 1)));
        }
        assert(ex.take(self.examples.len() as int) =~= ex);
        let ghost before = r@;
        for i in 0..self.chitchat.len()
            invariant
                entries_view(r@) == self.context() + flatten_pairs(ex) + self.chitchat().take(i as int),
                self.chitchat().len() == self.chitchat@.len(),
        {
            let ghost r0 = r@;
            r.push(self.chitchat[i].clone());
            assert(entries_view(r@) =~= entries_view(r0).push(self.chitchat@[i as int]@));
            assert(self.chitchat()[i as int] == self.chitchat@[i as int]@);
            assert(entries_view(r@) =~= self.context() + flatten_pairs(ex) + self.chitchat().take(i + 1));
        }
        assert(self.chitchat().take(self.chitchat.len() as int) =~= self.chitchat());
        r
    }

    /// Format the history using the given formatter.
    pub fn format<T: ChatEntryFormatter + ?Sized>(&self, formatter: &T) -> (r: Vec<String>)
        ensures
            r@.len() == self.entries().len(),
            forall|i: int| 0 <= i < r@.len() ==> #[trigger] r@[i]@ == formatter.formatted(self.entries()[i]),
    {
        let entries = self.iter();
        let r = format_entries(formatter, &entries);
        assert forall|i: int| 0 <= i < r@.len() implies #[trigger] r@[i]@ == formatter.formatted(self.entries()[i]) by {
            assert(entries_view(entries@)[i] == entries@[i]@);
        }
        r
    }

    /// Dump the history.
    pub fn dump(&self) -> (d: ChatHistoryDump)
        ensures
            entries_view(d.messages@) == self.entries(),
    {
        ChatHistoryDump { messages: self.iter() }
    }
}

} // verus!
