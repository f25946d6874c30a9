//! The sample extractor: it walks the markup tree of a problem page and
//! recovers the (input, output) pairs that follow the sample headings.

use vstd::prelude::*;
use vstd::string::StringExecFns;
use crate::markup::{MarkupNode, MarkupTree};
use crate::text::{char_at, chars_of, same_text, string_of};

verus! {

/// The text with which the heading of a sample input starts.
pub const INPUT_MARKER: &'static str = "\u{8f93}\u{5165}\u{6837}\u{4f8b}";

/// The text with which the heading of a sample output starts.
pub const OUTPUT_MARKER: &'static str = "\u{8f93}\u{51fa}\u{6837}\u{4f8b}";

/// The address of the page of problem `problem_id`.
pub open spec fn spec_problem_url(problem_id: Seq<char>) -> Seq<char> {
    "https://www.luogu.com.cn/problem/"@ + problem_id
}

/// The address of the page of problem `problem_id`.
pub fn problem_url(problem_id: &str) -> (url: String)
    ensures
        url@ == spec_problem_url(problem_id@),
{
    let mut url = String::from_str("https://www.luogu.com.cn/problem/");
    url.append(problem_id);
    url
}

/// `s` with every occurrence of `from` replaced by `to`, the occurrences
/// taken from the left and never overlapping.
pub open spec fn spec_replace(s: Seq<char>, from: Seq<char>, to: Seq<char>) -> Seq<char>
    recommends
        from.len() > 0,
    decreases s.len(),
{
    if from.len() == 0 || s.len() < from.len() {
        s
    } else if from.is_prefix_of(s) {
        to + spec_replace(s.skip(from.len() as int), from, to)
    } else {
        seq![s[0]] + spec_replace(s.skip(1), from, to)
    }
}

/// `s` with the three entities `&lt;`, `&gt;` and `&amp;` decoded, in this
/// order, so that the ampersand of `&amp;lt;` does not start a second entity.
pub open spec fn spec_decode_entities(s: Seq<char>) -> Seq<char> {
    spec_replace(spec_replace(spec_replace(s, "&lt;"@, "<"@), "&gt;"@, ">"@), "&amp;"@, "&"@)
}

/// Whether `pattern` stands in `s` at position `at`.
fn starts_at(s: &Vec<char>, at: usize, pattern: &Vec<char>) -> (found: bool)
    requires
        at <= s.len(),
    ensures
        found == pattern@.is_prefix_of(s@.skip(at as int)),
{
    if pattern.len() > s.len() - at {
        return false;
    }
    let mut k: usize = 0;
    while k < pattern.len()
        invariant
            k <= pattern.len(),
            at + pattern.len() <= s.len(),
            forall|j: int| 0 <= j < k ==> pattern@[j] == s@[at + j],
        decreases pattern.len() - k,
    {
        if char_at(pattern, k) != char_at(s, at + k) {
            return false;
        }
        k += 1;
    }
    true
}

/// Replaces every occurrence of `from` in `s` by `to`.
fn replace(s: &Vec<char>, from: &Vec<char>, to: &Vec<char>) -> (out: Vec<char>)
    requires
        from.len() > 0,
    ensures
        out@ == spec_replace(s@, from@, to@),
{
    let mut out: Vec<char> = Vec::new();
    let mut i: usize = 0;
    assert(s@.skip(0) == s@);
    while i < s.len()
        invariant
            i <= s.len(),
            from.len() > 0,
            out@ + spec_replace(s@.skip(i as int), from@, to@) == spec_replace(s@, from@, to@),
        decreases s.len() - i,
    {
        let ghost rest = s@.skip(i as int);
        if starts_at(s, i, from) {
            let mut k: usize = 0;
            let ghost before = out@;
            while k < to.len()
                invariant
                    k <= to.len(),
                    out@ == before + to@.take(k as int),
                decreases to.len() - k,
            {
                out.push(char_at(to, k));
                k += 1;
            }
            assert(rest.skip(from.len() as int) == s@.skip(i + from.len()));
            i += from.len();
        } else {
            out.push(char_at(s, i));
            assert(rest.skip(1) == s@.skip(i + 1));
            i += 1;
        }
    }
    out
}

/// Decodes the three entities `&lt;`, `&gt;` and `&amp;` in `text`.
pub fn decode_entities(text: &str) -> (out: String)
    ensures
        out@ == spec_decode_entities(text@),
{
    let chars = chars_of(text);
    proof {
        reveal_strlit("&lt;");
        reveal_strlit("&gt;");
        reveal_strlit("&amp;");
    }
    let first = replace(&chars, &chars_of("&lt;"), &chars_of("<"));
    let second = replace(&first, &chars_of("&gt;"), &chars_of(">"));
    let third = replace(&second, &chars_of("&amp;"), &chars_of("&"));
    string_of(&third)
}

/// What the walk over the children of one element is waiting for.
#[derive(Clone, Copy, Debug, PartialEq, Eq, Structural)]
pub enum ScanMode {
    /// Looking for the next sample heading.
    Scanning,
    /// The last node was the heading of a sample input.
    AwaitingInput,
    /// The last node was the heading of a sample output.
    AwaitingOutput,
}

/// The state of the walk over the children of one element.
pub struct Scan {
    pub mode: ScanMode,
    /// The input half of the pair that is being collected.
    pub pending: Seq<char>,
    /// The pairs that are complete, in document order.
    pub pairs: Seq<(Seq<char>, Seq<char>)>,
}

/// The state before any child is visited.
pub open spec fn scan_start() -> Scan {
    Scan { mode: ScanMode::Scanning, pending: Seq::empty(), pairs: Seq::empty() }
}

/// Whether `node` is a sample heading for `marker`: an `h3` element whose
/// first child is a text that starts with the marker.
pub open spec fn spec_is_heading(node: MarkupTree, marker: Seq<char>) -> bool {
    match node {
        MarkupTree::Element { name, children } => name == "h3"@ && children.len() > 0
            && match children[0] {
            MarkupTree::Text(text) => marker.is_prefix_of(text),
            _ => false,
        },
        _ => false,
    }
}

/// The text of a sample block: `node` is a `pre` element whose only child is
/// a `code` element whose only child is a text. Any other shape has none.
pub open spec fn spec_sample_text(node: MarkupTree) -> Option<Seq<char>> {
    match node {
        MarkupTree::Element { name, children } => if name == "pre"@ && children.len() == 1 {
            match children[0] {
                MarkupTree::Element { name: inner, children: texts } => if inner == "code"@
                    && texts.len() == 1 {
                    match texts[0] {
                        MarkupTree::Text(text) => Some(text),
                        _ => None,
                    }
                } else {
                    None
                },
                _ => None,
            }
        } else {
            None
        },
        _ => None,
    }
}

/// The state after visiting `child` in state `st`, `nested` being the pairs
/// found inside `child`.
///
/// While scanning, a sample heading makes the walk wait for its block, and
/// the pairs found inside any other node are added. While waiting, the very
/// next node is looked at and the walk goes back to scanning whatever that
/// node is: a sample block after an input heading becomes the pending input,
/// one after an output heading completes a pair with the pending input.
pub open spec fn scan_step(st: Scan, child: MarkupTree, nested: Seq<(Seq<char>, Seq<char>)>) -> Scan {
    match st.mode {
        ScanMode::Scanning => {
            if spec_is_heading(child, INPUT_MARKER@) {
                Scan { mode: ScanMode::AwaitingInput, ..st }
            } else if spec_is_heading(child, OUTPUT_MARKER@) {
                Scan { mode: ScanMode::AwaitingOutput, ..st }
            } else {
                Scan { pairs: st.pairs + nested, ..st }
            }
        },
        ScanMode::AwaitingInput => match spec_sample_text(child) {
            Some(text) => Scan {
                mode: ScanMode::Scanning,
                pending: spec_decode_entities(text),
                ..st
            },
            None => Scan { mode: ScanMode::Scanning, ..st },
        },
        ScanMode::AwaitingOutput => match spec_sample_text(child) {
            Some(text) => Scan {
                mode: ScanMode::Scanning,
                pending: Seq::empty(),
                pairs: st.pairs.push((st.pending, spec_decode_entities(text))),
            },
            None => Scan { mode: ScanMode::Scanning, ..st },
        },
    }
}

/// The state after visiting all of `children`, in order.
pub open spec fn scan_children(children: Seq<MarkupTree>) -> Scan
    decreases children,
{
    if children.len() == 0 {
        scan_start()
    } else {
        let child = children[children.len() - 1];
        scan_step(scan_children(children.drop_last()), child, spec_nested(child))
    }
}

/// The pairs found inside `node`; none where it is no element.
pub open spec fn spec_nested(node: MarkupTree) -> Seq<(Seq<char>, Seq<char>)>
    decreases node,
{
    match node {
        MarkupTree::Element { name, children } => scan_children(children).pairs,
        _ => Seq::empty(),
    }
}

/// The pairs found by the walk over the children of `node` and, in the same
/// way, inside them; `None` where `node` is no element.
pub open spec fn spec_search_from(node: MarkupTree) -> Option<Seq<(Seq<char>, Seq<char>)>> {
    match node {
        MarkupTree::Element { .. } => Some(spec_nested(node)),
        _ => None,
    }
}

/// The pairs found under the top-level nodes `roots`, in document order.
pub open spec fn spec_test_cases(roots: Seq<MarkupTree>) -> Seq<(Seq<char>, Seq<char>)>
    decreases roots.len(),
{
    if roots.len() == 0 {
        Seq::empty()
    } else {
        spec_test_cases(roots.drop_last()) + spec_nested(roots.last())
    }
}

/// Whether `text` starts with `prefix`.
pub fn starts_with(text: &str, prefix: &str) -> (found: bool)
    ensures
        found == prefix@.is_prefix_of(text@),
{
    let chars = chars_of(text);
    starts_at(&chars, 0, &chars_of(prefix))
}

/// Whether `node` is a sample heading for `marker`.
pub fn is_heading(node: &MarkupNode, marker: &str) -> (found: bool)
    ensures
        found == spec_is_heading(node@, marker@),
{
    match node {
        MarkupNode::Element { name, children } => {
            if same_text(name.as_str(), "h3") && children.len() > 0 {
                assert(node@->children[0] == children@[0]@);
                match &children[0] {
                    MarkupNode::Text(text) => starts_with(text.as_str(), marker),
                    _ => false,
                }
            } else {
                false
            }
        },
        _ => false,
    }
}

/// The text of a sample block, decoded; `None` where `node` is no such block.
pub fn sample_text(node: &MarkupNode) -> (text: Option<String>)
    ensures
        match spec_sample_text(node@) {
            Some(raw) => text matches Some(decoded) && decoded@ == spec_decode_entities(raw),
            None => text is None,
        },
{
    match node {
        MarkupNode::Element { name, children } => {
            if same_text(name.as_str(), "pre") && children.len() == 1 {
                match &children[0] {
                    MarkupNode::Element { name: inner, children: texts } => {
                        if same_text(inner.as_str(), "code") && texts.len() == 1 {
                            assert(children@[0]@->children[0] == texts@[0]@);
                            match &texts[0] {
                                MarkupNode::Text(raw) => Some(decode_entities(raw.as_str())),
                                _ => None,
                            }
                        } else {
                            None
                        }
                    },
                    _ => None,
                }
            } else {
                None
            }
        },
        _ => None,
    }
}

/// Walks the children of `n` and collects the sample pairs found there and
/// inside them; `None` where `n` is no element.
pub fn search_from(n: &MarkupNode) -> (found: Option<Vec<(String, String)>>)
    ensures
        found.deep_view() == spec_search_from(n@),
    decreases n,
{
    match n {
        MarkupNode::Element { name, children } => {
            let ghost trees = n@->children;
            let mut pairs: Vec<(String, String)> = Vec::new();
            let mut pending = String::new();
            let mut mode = ScanMode::Scanning;
            let mut i: usize = 0;
            assert(pairs.deep_view() == Seq::<(Seq<char>, Seq<char>)>::empty());
            while i < children.len()
                invariant
                    i <= children.len(),
                    n matches MarkupNode::Element { children: c, .. } && c == children,
                    trees == n@->children,
                    trees.len() == children.len(),
                    forall|k: int| 0 <= k < trees.len() ==> trees[k] == children@[k]@,
                    scan_children(trees.take(i as int)) == (Scan {
                        mode,
                        pending: pending@,
                        pairs: pairs.deep_view(),
                    }),
                decreases children.len() - i,
            {
                let child = &children[i];
                let ghost before = scan_children(trees.take(i as int));
                assert(trees.take(i + 1).drop_last() == trees.take(i as int));
                match mode {
                    ScanMode::Scanning => {
                        if is_heading(child, INPUT_MARKER) {
                            mode = ScanMode::AwaitingInput;
                        } else if is_heading(child, OUTPUT_MARKER) {
                            mode = ScanMode::AwaitingOutput;
                        } else {
                            let ghost old_pairs = pairs.deep_view();
                            match search_from(child) {
                                Some(mut nested) => {
                                    let ghost added = nested.deep_view();
                                    pairs.append(&mut nested);
                                    assert(pairs.deep_view() =~= old_pairs + added);
                                },
                                None => {},
                            }
                        }
                    },
                    ScanMode::AwaitingInput => {
                        match sample_text(child) {
                            Some(text) => {
                                pending = text;
                            },
                            None => {},
                        }
                        mode = ScanMode::Scanning;
                    },
                    ScanMode::AwaitingOutput => {
                        match sample_text(child) {
                            Some(text) => {
                                let ghost old_pairs = pairs.deep_view();
                                let ghost input = pending@;
                                pairs.push((pending, text));
                                assert(pairs.deep_view() =~= old_pairs.push((input, text@)));
                                pending = String::new();
                            },
                            None => {},
                        }
                        mode = ScanMode::Scanning;
                    },
                }
                assert(scan_children(trees.take(i + 1)) == scan_step(
                    before,
                    child@,
                    spec_nested(child@),
                ));
                i += 1;
            }
            assert(trees.take(children.len() as int) == trees);
            Some(pairs)
        },
        _ => None,
    }
}

/// Collects the sample pairs of a page from its top-level nodes `dom`, in
/// document order.
pub fn get_test_case_from_luogu_tree(dom: &Vec<MarkupNode>) -> (test_cases: Vec<(String, String)>)
    ensures
        test_cases.deep_view() == spec_test_cases(dom.deep_view()),
{
    let mut test_cases: Vec<(String, String)> = Vec::new();
    let mut i: usize = 0;
    let ghost roots = dom.deep_view();
    while i < dom.len()
        invariant
            i <= dom.len(),
            roots == dom.deep_view(),
            test_cases.deep_view() == spec_test_cases(roots.take(i as int)),
        decreases dom.len() - i,
    {
        assert(roots.take(i + 1).drop_last() == roots.take(i as int));
        match search_from(&dom[i]) {
            Some(mut cases) => {
                test_cases.append(&mut cases);
            },
            None => {},
        }
        i += 1;
    }
    assert(roots.take(dom.len() as int) == roots);
    test_cases
}

} // verus!
