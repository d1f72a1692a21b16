use vstd::prelude::*;

verus! {

/// A text in the two languages the site is written in.
#[derive(Clone, Debug)]
pub struct ContentI18ned {
    pub ja: String,
    pub en: String,
}

/// The editorial content shown beside a shader work.
#[derive(Clone, Debug)]
pub struct ShaderContent {
    pub title: String,
    pub description: ContentI18ned,
}

impl PartialEq for ContentI18ned {
    fn eq(&self, other: &ContentI18ned) -> (r: bool) {
        self.ja == other.ja && self.en == other.en
    }
}

impl vstd::std_specs::cmp::PartialEqSpecImpl for ContentI18ned {
    open spec fn obeys_eq_spec() -> bool {
        true
    }

    open spec fn eq_spec(&self, other: &ContentI18ned) -> bool {
        self.ja@ == other.ja@ && self.en@ == other.en@
    }
}

impl PartialEq for ShaderContent {
    fn eq(&self, other: &ShaderContent) -> (r: bool) {
        self.title == other.title && self.description == other.description
    }
}

impl vstd::std_specs::cmp::PartialEqSpecImpl for ShaderContent {
    open spec fn obeys_eq_spec() -> bool {
        true
    }

    open spec fn eq_spec(&self, other: &ShaderContent) -> bool {
        self.title@ == other.title@ && self.description.ja@ == other.description.ja@
            && self.description.en@ == other.description.en@
    }
}

/// The description shown once typing has finished: the Japanese text and a
/// line break, or nothing while no content has arrived.
pub fn finished_description(description: &Option<ContentI18ned>) -> (r: String)
    ensures
        description matches Some(d) ==> r@ == d.ja@ + "\n"@,
        description is None ==> r@ == Seq::<char>::empty(),
{
    match description {
        Some(d) => {
            let mut r = d.ja.clone();
            r.append("\n");
            r
        },
        None => String::new(),
    }
}

/// Name for what scraper gives for a parsed HTML document: for each node of
/// its tree, in insertion order, the node's text if it is a text node.
pub uninterp spec fn document_text_nodes_of(markup: Seq<char>) -> Seq<Option<Seq<char>>>;

/// Relies on scraper's `Html::parse_document` and on walking the `tree` it
/// builds (ego_tree, insertion order): each node becomes its text when it is
/// a text node and `None` otherwise. The result depends on the markup alone.
#[verifier::external_body]
fn document_text_nodes(markup: &str) -> (r: Vec<Option<String>>)
    ensures
        r.deep_view() == document_text_nodes_of(markup@),
{
    scraper::Html::parse_document(markup).tree.into_iter().map(|node| match node {
        scraper::node::Node::Text(text) => Some(text.text.to_string()),
        _ => None,
    }).collect()
}

/// The texts of `nodes` run together, skipping the nodes that hold none.
pub open spec fn joined_texts(nodes: Seq<Option<Seq<char>>>) -> Seq<char>
    decreases nodes.len(),
{
    if nodes.len() == 0 {
        Seq::empty()
    } else {
        joined_texts(nodes.drop_last()) + match nodes.last() {
            Some(t) => t,
            None => Seq::empty(),
        }
    }
}

/// Runs the texts of `nodes` together, skipping the nodes that hold none.
pub fn join_text_nodes(nodes: &Vec<Option<String>>) -> (r: String)
    ensures
        r@ == joined_texts(nodes.deep_view()),
{
    let mut r = String::new();
    let mut i: usize = 0;
    while i < nodes.len()
        invariant
            i <= nodes@.len(),
            r@ == joined_texts(nodes.deep_view().take(i as int)),
        decreases nodes@.len() - i,
    {
        assert(nodes.deep_view().take(i + 1).drop_last() =~= nodes.deep_view().take(i as int));
        match &nodes[i] {
            Some(t) => r.append(t.as_str()),
            None => {},
        }
        i = i + 1;
    }
    assert(nodes.deep_view().take(nodes@.len() as int) =~= nodes.deep_view());
    r
}

/// The plain text of an HTML fragment: the text of every text node, run
/// together without the markup.
pub fn markup_to_string(markup: String) -> (r: String)
    ensures
        r@ == joined_texts(document_text_nodes_of(markup@)),
{
    let nodes = document_text_nodes(markup.as_str());
    join_text_nodes(&nodes)
}

} // verus!
