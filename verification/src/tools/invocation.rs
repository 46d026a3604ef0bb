//! Finding the tool invocations in a message: the YAML blocks of a markdown
//! document, and what their documents hold.

use vstd::prelude::*;

use crate::text::{decimal, prefixed, push_str, to_decimal, wrapped};
use super::{debug_quoted, string_debug};

verus! {

/// Error while extracting tool invocations.
#[derive(Debug)]
pub enum Error {
    /// Invalid yaml
    InvalidYaml(String),
    /// No invocation found in the document
    NoInvocationFound,
    /// No valid invocation found in the document
    NoValidInvocationFound(String),
    /// Too many yaml blocks
    TooManyYamlBlocks(usize),
}

impl Clone for Error {
    fn clone(&self) -> (r: Self)
        ensures
            r == *self,
    {
        match self {
            Error::InvalidYaml(s) => Error::InvalidYaml(s.clone()),
            Error::NoInvocationFound => Error::NoInvocationFound,
            Error::NoValidInvocationFound(s) => Error::NoValidInvocationFound(s.clone()),
            Error::TooManyYamlBlocks(n) => Error::TooManyYamlBlocks(*n),
        }
    }
}

/// The debug notation of an error (`format!("{:?}", e)`).
pub open spec fn error_debug(e: Error) -> Seq<char> {
    match e {
        Error::InvalidYaml(s) => "InvalidYaml("@ + string_debug(s@) + ")"@,
        Error::NoInvocationFound => "NoInvocationFound"@,
        Error::NoValidInvocationFound(s) => "NoValidInvocationFound("@ + string_debug(s@) + ")"@,
        Error::TooManyYamlBlocks(n) => "TooManyYamlBlocks("@ + decimal(n as nat) + ")"@,
    }
}

/// The message of an error (`e.to_string()`).
pub open spec fn error_message(e: Error) -> Seq<char> {
    match e {
        Error::InvalidYaml(s) => "Invalid yaml: "@ + s@,
        Error::NoInvocationFound => "No Action found"@,
        Error::NoValidInvocationFound(s) => "No valid Action found: "@ + s@,
        Error::TooManyYamlBlocks(n) => "Too many ("@ + decimal(n as nat) + ") yaml blocks. Only one is expected."@,
    }
}

impl Error {
    /// The debug notation of the error (`format!("{:?}", e)`).
    pub fn debug_string(&self) -> (s: String)
        ensures
            s@ == error_debug(*self),
    {
        match self {
            Error::InvalidYaml(m) => wrapped("InvalidYaml(", debug_quoted(m.as_str()).as_str(), ")"),
            Error::NoInvocationFound => String::from_str("NoInvocationFound"),
            Error::NoValidInvocationFound(m) => wrapped("NoValidInvocationFound(", debug_quoted(m.as_str()).as_str(), ")"),
            Error::TooManyYamlBlocks(n) => wrapped("TooManyYamlBlocks(", to_decimal(*n).as_str(), ")"),
        }
    }

    /// The message of the error (`e.to_string()`).
    pub fn message(&self) -> (s: String)
        ensures
            s@ == error_message(*self),
    {
        match self {
            Error::InvalidYaml(m) => prefixed("Invalid yaml: ", m.as_str()),
            Error::NoInvocationFound => String::from_str("No Action found"),
            Error::NoValidInvocationFound(m) => prefixed("No valid Action found: ", m.as_str()),
            Error::TooManyYamlBlocks(n) => wrapped("Too many (", to_decimal(*n).as_str(), ") yaml blocks. Only one is expected."),
        }
    }
}

} // verus!

verus! {

use crate::text::{
    has_prefix, join, join_strings, lines, lines_of, starts_with, strings_view, trim, trimmed,
};

/// Does the line open a YAML block (its trimmed text starts with ```` ```yaml ````)?
pub open spec fn opens_yaml_block(line: Seq<char>) -> bool {
    starts_with(trim(line), "```yaml"@)
}

/// Does the line close a block (its trimmed text starts with ```` ``` ````)?
pub open spec fn closes_block(line: Seq<char>) -> bool {
    starts_with(trim(line), "```"@)
}

/// The index of the first line that closes a block, or the number of lines
/// if none does.
pub open spec fn closing_index(ls: Seq<Seq<char>>) -> nat
    decreases ls.len(),
{
    if ls.len() == 0 {
        0
    } else if closes_block(ls[0]) {
        0
    } else {
        1 + closing_index(ls.skip(1))
    }
}

/// The first line that closes a block is one of the lines, unless none
/// does, and no line before it closes a block.
pub proof fn lemma_closing_index_bound(ls: Seq<Seq<char>>)
    ensures
        closing_index(ls) <= ls.len(),
        closing_index(ls) < ls.len() ==> closes_block(ls[closing_index(ls) as int]),
        forall|k: int| 0 <= k < closing_index(ls) ==> !closes_block(#[trigger] ls[k]),
    decreases ls.len(),
{
    if ls.len() > 0 && !closes_block(ls[0]) {
        lemma_closing_index_bound(ls.skip(1));
        assert forall|k: int| 0 <= k < closing_index(ls) implies !closes_block(#[trigger] ls[k]) by {
            if k > 0 {
                assert(ls[k] == ls.skip(1)[k - 1]);
            }
        }
    }
}

proof fn lemma_closing_index_at(ls: Seq<Seq<char>>, j: int)
    requires
        0 <= j <= ls.len(),
        forall|k: int| 0 <= k < j ==> !closes_block(#[trigger] ls[k]),
        j < ls.len() ==> closes_block(ls[j]),
    ensures
        closing_index(ls) == j,
    decreases j,
{
    if j > 0 {
        assert forall|k: int| 0 <= k < j - 1 implies !closes_block(#[trigger] ls.skip(1)[k]) by {
            assert(ls.skip(1)[k] == ls[k + 1]);
        }
        if j < ls.len() {
            assert(ls.skip(1)[j - 1] == ls[j]);
        }
        lemma_closing_index_at(ls.skip(1), j - 1);
    }
}

/// The YAML blocks of a markdown document given by its lines: each block
/// holds the lines after a line that opens a YAML block, up to the line
/// that closes it (or to the end), joined by line feeds.
pub open spec fn yaml_blocks_of(ls: Seq<Seq<char>>) -> Seq<Seq<char>>
    decreases ls.len(),
{
    if ls.len() == 0 {
        Seq::empty()
    } else if opens_yaml_block(ls[0]) {
        let rest = ls.skip(1);
        let k = closing_index(rest);
        proof {
            lemma_closing_index_bound(rest);
        }
        let after = if k < rest.len() { rest.skip(k + 1 as int) } else { Seq::empty() };
        seq![join(rest.take(k as int), "\n"@)] + yaml_blocks_of(after)
    } else {
        yaml_blocks_of(ls.skip(1))
    }
}

/// The YAML blocks of a markdown document.
pub open spec fn yaml_blocks(data: Seq<char>) -> Seq<Seq<char>> {
    yaml_blocks_of(lines(data))
}

fn clone_range(v: &Vec<String>, from: usize, to: usize) -> (r: Vec<String>)
    requires
        from <= to <= v@.len(),
    ensures
        strings_view(r@) == strings_view(v@).subrange(from as int, to as int),
{
    let mut r: Vec<String> = Vec::new();
    let mut i = from;
    while i < to
        invariant
            from <= i <= to <= v@.len(),
            strings_view(r@) == strings_view(v@).subrange(from as int, i as int),
        decreases to - i,
    {
        let ghost r0 = r@;
        r.push(v[i].clone());
        assert(strings_view(r@) =~= strings_view(r0).push(v@[i as int]@));
        assert(strings_view(r@) =~= strings_view(v@).subrange(from as int, i + 1));
        i = i + 1;
    }
    r
}

/// The YAML blocks of a markdown document: the text between a line whose
/// trimmed text starts with ```` ```yaml ```` and the next line whose trimmed
/// text starts with ```` ``` ```` (or the end of the document).
pub fn find_yaml_blocks(data: &str) -> (r: Vec<String>)
    ensures
        strings_view(r@) == yaml_blocks(data@),
{
    let ls = lines_of(data);
    let ghost lv = strings_view(ls@);
    let n = ls.len();
    let mut blocks: Vec<String> = Vec::new();
    let mut i: usize = 0;
    assert(lv.skip(0) =~= lv);
    assert(strings_view(blocks@) + yaml_blocks_of(lv) =~= yaml_blocks_of(lv));
    while i < n
        invariant
            n == ls@.len(),
            lv == strings_view(ls@),
            lv == lines(data@),
            i <= n,
            strings_view(blocks@) + yaml_blocks_of(lv.skip(i as int)) == yaml_blocks_of(lv),
        decreases n - i,
    {
        let t = trimmed(ls[i].as_str());
        assert(lv[i as int] == ls@[i as int]@);
        let ghost cur = lv.skip(i as int);
        assert(cur[0] == lv[i as int]);
        if has_prefix(t.as_str(), "```yaml") {
            let mut j = i + 1;
            while j < n && !has_prefix(trimmed(ls[j].as_str()).as_str(), "```")
                invariant
                    n == ls@.len(),
                    lv == strings_view(ls@),
                    i < j <= n,
                    forall|k: int| i + 1 <= k < j ==> !closes_block(#[trigger] lv[k]),
                decreases n - j,
            {
                assert(lv[j as int] == ls@[j as int]@);
                j = j + 1;
            }
            let body = clone_range(&ls, i + 1, j);
            let block = join_strings(&body, "\n");
            proof {
                let rest = cur.skip(1);
                assert(rest =~= lv.skip(i + 1));
                assert forall|k: int| 0 <= k < j - (i + 1) implies !closes_block(#[trigger] rest[k]) by {
                    assert(rest[k] == lv[i + 1 + k]);
                }
                if j < n {
                    assert(rest[j - (i + 1)] == lv[j as int]);
                    assert(lv[j as int] == ls@[j as int]@);
                }
                lemma_closing_index_at(rest, j - (i + 1));
                assert(rest.take(j - (i + 1)) =~= lv.subrange(i + 1, j as int));
                if j < n {
                    assert(rest.skip(j - (i + 1) + 1) =~= lv.skip(j + 1));
                } else {
                    assert(lv.skip(n as int) =~= Seq::<Seq<char>>::empty());
                }
                assert(yaml_blocks_of(cur) == seq![block@] + yaml_blocks_of(
                    if j < n { lv.skip(j + 1) } else { lv.skip(n as int) },
                ));
                assert(strings_view(blocks@.push(block)) =~= strings_view(blocks@).push(block@));
            }
            blocks.push(block);
            if j < n {
                i = j + 1;
            } else {
                i = n;
            }
            assert(strings_view(blocks@) + yaml_blocks_of(lv.skip(i as int)) =~= yaml_blocks_of(lv));
        } else {
            assert(cur.skip(1) =~= lv.skip(i + 1));
            i = i + 1;
        }
    }
    assert(lv.skip(n as int) =~= Seq::<Seq<char>>::empty());
    assert(strings_view(blocks@) + Seq::<Seq<char>>::empty() =~= strings_view(blocks@));
    blocks
}

} // verus!

verus! {

/// What one YAML document of a block holds: one `T` or a list of them.
pub enum Invocation<T> {
    /// A single T
    Single(T),
    /// A list of T
    Multiple(Vec<T>),
}

/// The items of one document.
pub open spec fn invocation_items<T>(inv: Invocation<T>) -> Seq<T> {
    match inv {
        Invocation::Single(t) => seq![t],
        Invocation::Multiple(ts) => ts@,
    }
}

/// The items of the documents, in order, or the message of the first
/// document that could not be read.
pub open spec fn gather<T>(docs: Seq<Result<Invocation<T>, String>>) -> Result<Seq<T>, Seq<char>>
    decreases docs.len(),
{
    if docs.len() == 0 {
        Ok(Seq::empty())
    } else {
        match docs[0] {
            Err(m) => Err(m@),
            Ok(inv) => match gather(docs.skip(1)) {
                Err(m) => Err(m),
                Ok(rest) => Ok(invocation_items(inv) + rest),
            },
        }
    }
}

/// Extract one or several T from the documents of a YAML block: a
/// document holds a single T or a list of them. The first document that
/// could not be read makes the block invalid, and a block with no T holds
/// no invocation.
pub fn extract_from_yaml<T>(docs: Vec<Result<Invocation<T>, String>>) -> (r: Result<Vec<T>, Error>)
    ensures
        gather(docs@) is Err ==> (r matches Err(Error::InvalidYaml(s)) && s@ == gather(docs@)->Err_0),
        gather(docs@) is Ok && gather(docs@)->Ok_0.len() == 0 ==> (r matches Err(Error::NoInvocationFound)),
        gather(docs@) is Ok && gather(docs@)->Ok_0.len() > 0 ==> (r matches Ok(v) && v@ == gather(docs@)->Ok_0),
{
    let ghost all = docs@;
    let mut remaining = docs;
    let mut invocations: Vec<T> = Vec::new();
    let ghost mut i: int = 0;
    assert(all.skip(0) =~= all);
    while remaining.len() > 0
        invariant
            0 <= i <= all.len(),
            remaining@ == all.skip(i),
            all == docs@,
            gather(all) == match gather(all.skip(i)) {
                Err(m) => Err(m),
                Ok(rest) => Ok(invocations@ + rest),
            },
        decreases remaining.len(),
    {
        let ghost cur = all.skip(i);
        let doc = remaining.remove(0);
        assert(cur.skip(1) =~= all.skip(i + 1));
        assert(doc == cur[0]);
        match doc {
            Err(m) => {
                assert(gather(cur) == Err::<Seq<T>, Seq<char>>(m@));
                assert(gather(all) == Err::<Seq<T>, Seq<char>>(m@));
                return Err(Error::InvalidYaml(m));
            },
            Ok(Invocation::Single(t)) => {
                let ghost before = invocations@;
                invocations.push(t);
                proof {
                    assert forall|rest: Seq<T>| #![auto] invocations@ + rest =~= before + (seq![t] + rest) by {}
                }
            },
            Ok(Invocation::Multiple(ts)) => {
                let ghost before = invocations@;
                let ghost tv = ts@;
                let mut ts = ts;
                invocations.append(&mut ts);
                proof {
                    assert forall|rest: Seq<T>| #![auto] invocations@ + rest =~= before + (tv + rest) by {}
                }
            },
        }
        proof {
            i = i + 1;
        }
    }
    assert(all.skip(i) =~= Seq::<Result<Invocation<T>, String>>::empty());
    assert(invocations@ + Seq::<T>::empty() =~= invocations@);
    if invocations.len() == 0 {
        Err(Error::NoInvocationFound)
    } else {
        Ok(invocations)
    }
}

/// Extracted invocations.
pub struct ExtractedInvocations<T> {
    /// The invocations, in the order they were found
    pub invocations: Vec<T>,
    /// The number of YAML blocks
    pub yaml_block_count: usize,
}

/// The items of the blocks that could be read, in order.
pub open spec fn all_items<T>(blocks: Seq<Result<Vec<T>, Error>>) -> Seq<T>
    decreases blocks.len(),
{
    if blocks.len() == 0 {
        Seq::empty()
    } else {
        all_items(blocks.drop_last()) + match blocks.last() {
            Ok(v) => v@,
            Err(_) => Seq::empty(),
        }
    }
}

/// Is there a block that could not be read?
pub open spec fn has_error<T>(blocks: Seq<Result<Vec<T>, Error>>) -> bool {
    exists|i: int| 0 <= i < blocks.len() && blocks[i] is Err
}

/// The index of the last block that could not be read.
pub open spec fn last_error_index<T>(blocks: Seq<Result<Vec<T>, Error>>) -> int {
    choose|i: int| 0 <= i < blocks.len() && blocks[i] is Err
        && forall|k: int| i < k < blocks.len() ==> blocks[k] is Ok
}

/// Gather the invocations found in the YAML blocks of a document, given
/// what each block holds: when none is found, the error of the last block
/// that could not be read is returned, or that no invocation was found.
pub fn collect_invocations<T>(blocks: Vec<Result<Vec<T>, Error>>) -> (r: Result<ExtractedInvocations<T>, Error>)
    ensures
        all_items(blocks@).len() > 0 ==> (r matches Ok(x) && x.invocations@ == all_items(blocks@)
            && x.yaml_block_count == blocks@.len()),
        all_items(blocks@).len() == 0 && has_error(blocks@) ==> (r matches Err(e)
            && blocks@[last_error_index(blocks@)] == Err::<Vec<T>, Error>(e)),
        all_items(blocks@).len() == 0 && !has_error(blocks@) ==> (r matches Err(Error::NoInvocationFound)),
{
    let ghost all = blocks@;
    let count = blocks.len();
    let mut err: Option<Error> = None;
    let mut invocations: Vec<T> = Vec::new();
    let mut remaining = blocks;
    let ghost mut i: int = 0;
    let ghost mut err_at: int = -1;
    while remaining.len() > 0
        invariant
            0 <= i <= all.len(),
            remaining@ == all.skip(i),
            invocations@ == all_items(all.take(i)),
            err is None <==> !has_error(all.take(i)),
            err is Some ==> 0 <= err_at < i && all[err_at] == Err::<Vec<T>, Error>(err->0)
                && forall|k: int| err_at < k < i ==> all[k] is Ok,
        decreases remaining.len(),
    {
        let ghost cur = all.skip(i);
        let b = remaining.remove(0);
        assert(cur.skip(1) =~= all.skip(i + 1));
        assert(all.take(i + 1).drop_last() =~= all.take(i));
        assert(all.take(i + 1).last() == all[i]);
        match b {
            Ok(v) => {
                let mut v = v;
                invocations.append(&mut v);
                proof {
                    if has_error(all.take(i + 1)) {
                        let k = choose|k: int| 0 <= k < i + 1 && (#[trigger] all.take(i + 1)[k]) is Err;
                        assert(all.take(i)[k] is Err);
                    }
                }
            },
            Err(e) => {
                proof {
                    assert(all.take(i + 1)[i] is Err);
                    err_at = i;
                }
                err = Some(e);
            },
        }
        proof {
            if err is None {
                assert(!has_error(all.take(i + 1))) by {
                    if has_error(all.take(i + 1)) {
                        let k = choose|k: int| 0 <= k < i + 1 && (#[trigger] all.take(i + 1)[k]) is Err;
                        if k < i {
                            assert(all.take(i)[k] is Err);
                        }
                    }
                }
            }
            i = i + 1;
        }
    }
    assert(all.take(i) =~= all);
    if invocations.len() == 0 {
        match err {
            Some(e) => {
                assert(has_error(all));
                let ghost li = last_error_index(all);
                assert(li == err_at) by {
                    assert(0 <= err_at < all.len() && all[err_at] is Err
                        && forall|k: int| err_at < k < all.len() ==> all[k] is Ok);
                    if li < err_at {
                        assert(all[err_at] is Ok);
                    } else if li > err_at {
                        assert(all[li] is Ok);
                    }
                }
                Err(e)
            },
            None => Err(Error::NoInvocationFound),
        }
    } else {
        Ok(ExtractedInvocations { invocations, yaml_block_count: count })
    }
}

} // verus!
