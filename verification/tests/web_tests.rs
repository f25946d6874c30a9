use oi_helper::error::HelperError;
use oi_helper::markup::{get_luogu_problem_content, MarkupNode};
use oi_helper::web::{
    decode_entities, get_test_case_from_luogu_tree, is_heading, problem_url, sample_text,
    search_from, starts_with, INPUT_MARKER, OUTPUT_MARKER,
};

fn text(s: &str) -> MarkupNode {
    MarkupNode::Text(s.to_string())
}

fn element(name: &str, children: Vec<MarkupNode>) -> MarkupNode {
    MarkupNode::Element { name: name.to_string(), children }
}

fn heading(s: &str) -> MarkupNode {
    element("h3", vec![text(s)])
}

fn block(s: &str) -> MarkupNode {
    element("pre", vec![element("code", vec![text(s)])])
}

fn pair(input: &str, output: &str) -> (String, String) {
    (input.to_string(), output.to_string())
}

#[test]
fn markers_are_the_sample_headings() {
    assert_eq!(INPUT_MARKER, "输入样例");
    assert_eq!(OUTPUT_MARKER, "输出样例");
}

#[test]
fn problem_url_embeds_the_identifier() {
    assert_eq!(problem_url("B2002"), "https://www.luogu.com.cn/problem/B2002");
    assert_eq!(problem_url(""), "https://www.luogu.com.cn/problem/");
}

#[test]
fn starts_with_checks_the_prefix() {
    assert!(starts_with("输入样例#1", INPUT_MARKER));
    assert!(starts_with("abc", ""));
    assert!(starts_with("abc", "abc"));
    assert!(!starts_with("ab", "abc"));
    assert!(!starts_with("xabc", "abc"));
    assert!(!starts_with("输出样例#1", INPUT_MARKER));
}

#[test]
fn entities_are_decoded_in_order() {
    assert_eq!(decode_entities("a &lt; b &gt; c &amp; d"), "a < b > c & d");
    assert_eq!(decode_entities("&amp;lt;"), "&lt;");
    assert_eq!(decode_entities("&lt;&lt;&gt;"), "<<>");
    assert_eq!(decode_entities("&amp;amp;"), "&amp;");
    assert_eq!(decode_entities("&l"), "&l");
    assert_eq!(decode_entities("&quot;"), "&quot;");
    assert_eq!(decode_entities(""), "");
    let texts = ["x&lt;y", "&&lt;;", "&lt", "lt;&gt;&amp;&amp;gt;", "&a&amp;mp;"];
    for raw in texts {
        let want = raw.replace("&lt;", "<").replace("&gt;", ">").replace("&amp;", "&");
        assert_eq!(decode_entities(raw), want);
    }
}

#[test]
fn heading_needs_tag_and_leading_text() {
    assert!(is_heading(&heading("输入样例#1"), INPUT_MARKER));
    assert!(!is_heading(&heading("输入样例#1"), OUTPUT_MARKER));
    assert!(!is_heading(&element("h2", vec![text("输入样例#1")]), INPUT_MARKER));
    assert!(!is_heading(&element("h3", vec![]), INPUT_MARKER));
    assert!(!is_heading(&element("h3", vec![element("b", vec![]), text("输入样例")]), INPUT_MARKER));
    assert!(!is_heading(&text("输入样例"), INPUT_MARKER));
}

#[test]
fn sample_text_needs_the_exact_shape() {
    assert_eq!(sample_text(&block("1 &lt; 2")), Some("1 < 2".to_string()));
    assert_eq!(sample_text(&element("pre", vec![])), None);
    assert_eq!(sample_text(&element("pre", vec![text("5")])), None);
    assert_eq!(sample_text(&element("pre", vec![element("code", vec![])])), None);
    assert_eq!(sample_text(&element("pre", vec![element("span", vec![text("5")])])), None);
    assert_eq!(sample_text(&element("div", vec![element("code", vec![text("5")])])), None);
    assert_eq!(
        sample_text(&element("pre", vec![element("code", vec![text("5")]), text("x")])),
        None
    );
    assert_eq!(
        sample_text(&element("pre", vec![element("code", vec![text("5"), text("6")])])),
        None
    );
    assert_eq!(sample_text(&text("5")), None);
}

#[test]
fn extractor_recovers_one_pair() {
    let tree = vec![element(
        "div",
        vec![heading("输入样例#1"), block("5"), heading("输出样例#1"), block("25")],
    )];
    assert_eq!(get_test_case_from_luogu_tree(&tree), vec![pair("5", "25")]);
}

#[test]
fn extractor_recovers_one_pair_from_page_text() {
    let page = "<div><h3>输入样例#1</h3><pre><code>5</code></pre><h3>输出样例#1</h3><pre><code>25</code></pre></div>";
    let tree = get_luogu_problem_content(page).unwrap();
    assert_eq!(
        tree,
        vec![element(
            "div",
            vec![heading("输入样例#1"), block("5"), heading("输出样例#1"), block("25")],
        )]
    );
    assert_eq!(get_test_case_from_luogu_tree(&tree), vec![pair("5", "25")]);
}

#[test]
fn page_nodes_keep_kind_and_order() {
    let page = "<!-- note --><p>one<b>two</b>three</p><br><span></span>";
    let tree = get_luogu_problem_content(page).unwrap();
    assert_eq!(
        tree,
        vec![
            MarkupNode::Comment("note".to_string()),
            element("p", vec![text("one"), element("b", vec![text("two")]), text("three")]),
            element("br", vec![]),
            element("span", vec![]),
        ]
    );
}

#[test]
fn unparsable_page_is_a_parse_error() {
    assert_eq!(
        get_luogu_problem_content("<html></html><html></html>"),
        Err(HelperError::ParseError)
    );
}

#[test]
fn extractor_finds_pairs_in_document_order() {
    let tree = vec![
        element(
            "div",
            vec![
                element(
                    "section",
                    vec![heading("输入样例#1"), block("1 2"), heading("输出样例#1"), block("3")],
                ),
                element("p", vec![text("between")]),
                element(
                    "section",
                    vec![heading("输入样例#2"), block("a&lt;b"), heading("输出样例#2"), block("&amp;")],
                ),
            ],
        ),
        text("top-level text"),
        element("div", vec![heading("输入样例#3"), block("x"), heading("输出样例#3"), block("y")]),
    ];
    assert_eq!(
        get_test_case_from_luogu_tree(&tree),
        vec![pair("1 2", "3"), pair("a<b", "&"), pair("x", "y")]
    );
}

#[test]
fn headings_at_top_level_are_not_seen() {
    let tree = vec![heading("输入样例#1"), block("5"), heading("输出样例#1"), block("25")];
    assert_eq!(get_test_case_from_luogu_tree(&tree), vec![]);
}

#[test]
fn search_from_is_none_off_elements() {
    assert_eq!(search_from(&text("x")), None);
    assert_eq!(search_from(&MarkupNode::Comment("x".to_string())), None);
    assert_eq!(search_from(&element("div", vec![])), Some(vec![]));
}

#[test]
fn input_heading_without_block_leaves_input_empty() {
    let tree = element(
        "div",
        vec![
            heading("输入样例#1"),
            element("p", vec![text("no block")]),
            heading("输出样例#1"),
            block("25"),
        ],
    );
    assert_eq!(search_from(&tree), Some(vec![pair("", "25")]));
}

#[test]
fn lookahead_is_one_sibling_of_any_kind() {
    let tree = element(
        "div",
        vec![heading("输入样例#1"), text("stray"), block("5"), heading("输出样例#1"), block("25")],
    );
    assert_eq!(search_from(&tree), Some(vec![pair("", "25")]));
}

#[test]
fn output_heading_without_block_emits_nothing_and_keeps_input() {
    let tree = element(
        "div",
        vec![
            heading("输入样例#1"),
            block("5"),
            heading("输出样例#1"),
            element("p", vec![]),
            heading("输出样例#1"),
            block("25"),
        ],
    );
    assert_eq!(search_from(&tree), Some(vec![pair("5", "25")]));
}

#[test]
fn pending_input_does_not_cross_elements() {
    let tree = element(
        "div",
        vec![
            element("div", vec![heading("输入样例#1"), block("5")]),
            element("div", vec![heading("输出样例#1"), block("25")]),
        ],
    );
    assert_eq!(search_from(&tree), Some(vec![pair("", "25")]));
}

#[test]
fn block_after_heading_is_not_searched_while_waiting() {
    let tree = element(
        "div",
        vec![
            heading("输入样例#1"),
            element("div", vec![heading("输入样例#9"), block("9"), heading("输出样例#9"), block("81")]),
            heading("输出样例#1"),
            block("25"),
        ],
    );
    assert_eq!(search_from(&tree), Some(vec![pair("", "25")]));
}
