//! The AQL queries for tags.

use vstd::prelude::*;
use crate::aql::{AqlRequest, AqlView, BindValue, BindValueView};
use crate::models::ideas::Sort;
use crate::models::tags::QueryTag;
use crate::text::{split_on, split_text};

verus! {

/// The query that lists every tag.
pub open spec fn all_tags_text() -> Seq<char> {
    "FOR tag IN tags RETURN tag"@
}

/// The query that returns each tag of a list of keys with the ideas that
/// carry it.
pub open spec fn tags_with_ideas_text() -> Seq<char> {
    "for tag in @user_input\n\t\t\tlet t = DOCUMENT(CONCAT('tags/', tag))\n\t\t\tRETURN {\n                _key: t._key,\n\t\t\t\t_id: t._id,\n\t\t\t\tcount: t.count,\n                ideas: (\n                    for v in 1..1 OUTBOUND t._id tag_to_idea\n                    RETURN v\n                    )\n\t\t\t\t}"@
}

/// The query that returns the tag with a key.
pub open spec fn one_tag_text() -> Seq<char> {
    "RETURN DOCUMENT(CONCAT('tags/', @key))"@
}

/// A query that returns each tag of a list of keys with the documents
/// reached from it by one edge of `tag_to_idea` followed in the direction
/// `dir` (`OUTBOUND`: from `_from` to `_to`; `INBOUND`: back).
pub open spec fn tags_walk_text(dir: Seq<char>) -> Seq<char> {
    "for tag in @user_input\n\t\t\tlet t = DOCUMENT(CONCAT('tags/', tag))\n\t\t\tRETURN {\n                _key: t._key,\n\t\t\t\t_id: t._id,\n\t\t\t\tcount: t.count,\n                ideas: (\n                    for v in 1..1 "@
        + dir + " t._id tag_to_idea\n                    RETURN v\n                    )\n\t\t\t\t}"@
}

/// The end of a query that stores an idea with tags, which links each tag
/// `tag` and the idea `idea` by an edge of `tag_to_idea` from the document
/// named `from` to the one named `to`.
pub open spec fn tag_link_text(from: Seq<char>, to: Seq<char>) -> Seq<char> {
    " RETURN FIRST (FOR tag IN tags\n            UPDATE tag WITH {count : tag.count + 1} IN tags\n            INSERT { _from: "@
        + from + "._id, _to: "@ + to + "._id } INTO tag_to_idea\n            RETURN idea)"@
}

/// The handle of the document named `name` in the link of the tag
/// `link.0` and the idea `link.1`.
pub open spec fn link_end(name: Seq<char>, link: (Seq<char>, Seq<char>)) -> Seq<char> {
    if name == "tag"@ {
        link.0
    } else if name == "idea"@ {
        link.1
    } else {
        Seq::empty()
    }
}

/// The edges `(_from, _to)` stored for the tag–idea links `links` by
/// edges from the document named `from` to the one named `to`.
pub open spec fn stored_edges(from: Seq<char>, to: Seq<char>, links: Seq<(Seq<char>, Seq<char>)>) -> Seq<(Seq<char>, Seq<char>)> {
    links.map_values(|l: (Seq<char>, Seq<char>)| (link_end(from, l), link_end(to, l)))
}

/// The documents reached from `start` by one of the edges `edges` followed
/// in the direction `dir`.
pub open spec fn walk(dir: Seq<char>, edges: Seq<(Seq<char>, Seq<char>)>, start: Seq<char>) -> Set<Seq<char>> {
    Set::new(
        |x: Seq<char>|
            exists|k: int|
                0 <= k < edges.len() && ((dir == "OUTBOUND"@ && #[trigger] edges[k].0 == start && edges[k].1 == x)
                    || (dir == "INBOUND"@ && edges[k].1 == start && edges[k].0 == x)),
    )
}

/// The ideas that the links `links` (tag, idea) give the tag `tag`.
pub open spec fn linked_ideas(links: Seq<(Seq<char>, Seq<char>)>, tag: Seq<char>) -> Set<Seq<char>> {
    Set::new(|x: Seq<char>| exists|k: int| 0 <= k < links.len() && #[trigger] links[k] == (tag, x))
}

/// The tags-with-ideas query finds the ideas that storing them linked to
/// each tag: following its direction over the edges that the query storing
/// an idea inserts, from any tag, reaches exactly the ideas linked to it.
pub proof fn lemma_tags_reach_their_ideas()
    ensures
        exists|dir: Seq<char>, from: Seq<char>, to: Seq<char>|
            tags_with_ideas_text() == #[trigger] tags_walk_text(dir) && crate::handler::ideas::insert_idea_return(true)
                == #[trigger] tag_link_text(from, to) && forall|links: Seq<(Seq<char>, Seq<char>)>, tag: Seq<char>|
                #[trigger] walk(dir, stored_edges(from, to, links), tag) == linked_ideas(links, tag),
{
    reveal_strlit("for tag in @user_input\n\t\t\tlet t = DOCUMENT(CONCAT('tags/', tag))\n\t\t\tRETURN {\n                _key: t._key,\n\t\t\t\t_id: t._id,\n\t\t\t\tcount: t.count,\n                ideas: (\n                    for v in 1..1 OUTBOUND t._id tag_to_idea\n                    RETURN v\n                    )\n\t\t\t\t}");
    reveal_strlit("for tag in @user_input\n\t\t\tlet t = DOCUMENT(CONCAT('tags/', tag))\n\t\t\tRETURN {\n                _key: t._key,\n\t\t\t\t_id: t._id,\n\t\t\t\tcount: t.count,\n                ideas: (\n                    for v in 1..1 ");
    reveal_strlit(" t._id tag_to_idea\n                    RETURN v\n                    )\n\t\t\t\t}");
    reveal_strlit("OUTBOUND");
    reveal_strlit(" RETURN FIRST (FOR tag IN tags\n            UPDATE tag WITH {count : tag.count + 1} IN tags\n            INSERT { _from: tag._id, _to: idea._id } INTO tag_to_idea\n            RETURN idea)");
    reveal_strlit(" RETURN FIRST (FOR tag IN tags\n            UPDATE tag WITH {count : tag.count + 1} IN tags\n            INSERT { _from: ");
    reveal_strlit("._id, _to: ");
    reveal_strlit("._id } INTO tag_to_idea\n            RETURN idea)");
    reveal_strlit("tag");
    reveal_strlit("idea");
    reveal_strlit("INBOUND");
    let dir = "OUTBOUND"@;
    let from = "tag"@;
    let to = "idea"@;
    assert(tags_with_ideas_text() =~= tags_walk_text(dir));
    assert(crate::handler::ideas::insert_idea_return(true) =~= tag_link_text(from, to));
    assert("tag"@ != "idea"@);
    assert("OUTBOUND"@ != "INBOUND"@);
    assert forall|links: Seq<(Seq<char>, Seq<char>)>, tag: Seq<char>|
        #[trigger] walk(dir, stored_edges(from, to, links), tag) == linked_ideas(links, tag) by {
        let edges = stored_edges(from, to, links);
        assert forall|x: Seq<char>| walk(dir, edges, tag).contains(x) <==> linked_ideas(links, tag).contains(x) by {
            if walk(dir, edges, tag).contains(x) {
                let k = choose|k: int|
                    0 <= k < edges.len() && ((dir == "OUTBOUND"@ && #[trigger] edges[k].0 == tag && edges[k].1 == x)
                        || (dir == "INBOUND"@ && edges[k].1 == tag && edges[k].0 == x));
                assert(links[k] == (tag, x));
            }
            if linked_ideas(links, tag).contains(x) {
                let k = choose|k: int| 0 <= k < links.len() && #[trigger] links[k] == (tag, x);
                assert(edges[k] == (tag, x));
            }
        }
        assert(walk(dir, edges, tag) =~= linked_ideas(links, tag));
    }
}

impl QueryTag {
    /// A request for every tag.
    pub fn all() -> (q: QueryTag)
        ensures
            q.id is None,
            !q.with_ideas,
            q.sort == Sort::ALL,
    {
        QueryTag { id: None, with_ideas: false, sort: Sort::ALL }
    }

    /// A request for the tag with the key `id`.
    pub fn one(id: String) -> (q: QueryTag)
        ensures
            q.id matches Some(v) && v.deep_view() == seq![id@],
            !q.with_ideas,
            q.sort == Sort::ALL,
    {
        let mut v: Vec<String> = Vec::new();
        let ghost i = id@;
        v.push(id);
        assert(v.deep_view() =~= seq![i]);
        QueryTag { id: Some(v), with_ideas: false, sort: Sort::ALL }
    }

    /// A request for the tags whose keys the path segment `keys` lists,
    /// separated by commas, each with the ideas that carry it.
    pub fn associations(keys: &str) -> (q: QueryTag)
        ensures
            q.id matches Some(v) && v.deep_view() == split_on(keys@, ','),
            q.with_ideas,
            q.sort == Sort::ALL,
    {
        QueryTag { id: Some(split_text(keys, ',')), with_ideas: true, sort: Sort::ALL }
    }

    /// The request that answers this one: the tags it names with their
    /// ideas where it asks for ideas and names tags; else the first tag it
    /// names; else every tag.
    pub fn aql(&self) -> (r: AqlRequest)
        requires
            !self.with_ideas ==> (self.id matches Some(v) ==> v@.len() > 0),
        ensures
            match self.id {
                Some(v) => if self.with_ideas {
                    r@ == (AqlView {
                        query: tags_with_ideas_text(),
                        bind_vars: seq![("user_input"@, BindValueView::TextList(v.deep_view()))],
                        batch_size: Some(50),
                    })
                } else {
                    r@ == (AqlView {
                        query: one_tag_text(),
                        bind_vars: seq![("key"@, BindValueView::Text(v@[0]@))],
                        batch_size: Some(1),
                    })
                },
                None => r@ == (AqlView {
                    query: all_tags_text(),
                    bind_vars: Seq::empty(),
                    batch_size: Some(1),
                }),
            },
    {
        match &self.id {
            Some(keys) => {
                if self.with_ideas {
                    let r = AqlRequest::new(
                        "for tag in @user_input\n\t\t\tlet t = DOCUMENT(CONCAT('tags/', tag))\n\t\t\tRETURN {\n                _key: t._key,\n\t\t\t\t_id: t._id,\n\t\t\t\tcount: t.count,\n                ideas: (\n                    for v in 1..1 OUTBOUND t._id tag_to_idea\n                    RETURN v\n                    )\n\t\t\t\t}",
                    ).bind_var("user_input", BindValue::TextList(crate::text::clone_strings(keys))).batch_size(50);
                    assert(r@.bind_vars =~= seq![("user_input"@, BindValueView::TextList(keys.deep_view()))]);
                    r
                } else {
                    let r = AqlRequest::new("RETURN DOCUMENT(CONCAT('tags/', @key))").bind_var(
                        "key",
                        BindValue::Text(keys[0].clone()),
                    ).batch_size(1);
                    assert(r@.bind_vars =~= seq![("key"@, BindValueView::Text(keys@[0]@))]);
                    r
                }
            },
            None => AqlRequest::new("FOR tag IN tags RETURN tag").batch_size(1),
        }
    }
}

} // verus!
