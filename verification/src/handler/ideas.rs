//! The AQL queries for ideas: listing, searching, fetching one and storing
//! one.

use vstd::prelude::*;
use crate::aql::{AqlRequest, AqlView, BindValue, BindValueView};
use crate::models::ideas::{NewIdea, Owner, Pagination, QueryIdea, Sort};
use crate::text::{append_decimal, contains_char, decimal, digits_value, is_digit, join, lemma_decimal_reads_back};

verus! {

/// The condition that an idea carries `tag`.
pub open spec fn tag_condition(tag: Seq<char>) -> Seq<char> {
    "'"@ + tag + "' IN ele.tags "@
}

/// The FILTER line that keeps the ideas carrying every one of `tags`.
pub open spec fn filter_line(tags: Seq<Seq<char>>) -> Seq<char> {
    "FILTER "@ + join(tags.map_values(|t: Seq<char>| tag_condition(t)), " AND "@)
}

/// The filter of a query: nothing where no tag is asked for.
pub open spec fn tags_part(tags: Option<Vec<String>>) -> Seq<char> {
    match tags {
        Some(t) => filter_line(t.deep_view()),
        None => Seq::empty(),
    }
}

/// The SORT line for `sort`.
pub open spec fn sort_line(sort: Sort) -> Seq<char> {
    match sort {
        Sort::ALL => "SORT ele.date DESC "@,
        Sort::BRIGHT => "SORT (ele.upvotes / (ele.upvotes + ele.downvotes)) DESC "@,
    }
}

/// The LIMIT part of a query: none without a page or for a page of count 0.
pub open spec fn limit_part(page: Option<Pagination>) -> Seq<char> {
    match page {
        Some(p) => if p.count > 0 {
            " LIMIT "@ + decimal(p.offset as nat) + " , "@ + decimal(p.count as nat) + " "@
        } else {
            Seq::empty()
        },
        None => Seq::empty(),
    }
}

/// The query that lists the ideas that `q` asks for.
pub open spec fn simple_query_text(q: QueryIdea) -> Seq<char> {
    "FOR ele in ideas "@ + tags_part(q.tags) + sort_line(q.sort) + limit_part(q.pagination)
        + "RETURN ele"@
}

/// The query that lists the ideas whose text matches the words of `q`.
pub open spec fn search_query_text(q: QueryIdea) -> Seq<char> {
    "FOR ele in idea_search SEARCH ANALYZER(ele.text IN TOKENS('"@ + q.query.unwrap()@
        + "' , 'text_en'), 'text_en') "@ + tags_part(q.tags) + sort_line(q.sort)
        + " SORT TFIDF(ele) DESC "@ + limit_part(q.pagination) + "RETURN ele"@
}

/// The query that answers `q`: one idea by key, a search, or a listing.
pub open spec fn idea_query_text(q: QueryIdea) -> Seq<char> {
    match q.id {
        Some(id) => "RETURN DOCUMENT(CONCAT('ideas/', "@ + id@ + " ))"@,
        None => if q.query is Some {
            search_query_text(q)
        } else {
            simple_query_text(q)
        },
    }
}

/// Generates the AQL FILTER line that keeps the ideas carrying every tag of
/// `data`.
pub fn filter_with(data: Vec<String>) -> (line: String)
    ensures
        line@ == filter_line(data.deep_view()),
{
    let ghost parts = data.deep_view().map_values(|t: Seq<char>| tag_condition(t));
    let mut line = "FILTER ".to_owned();
    let n = data.len();
    let mut i: usize = 0;
    assert(parts.take(0) =~= Seq::<Seq<char>>::empty());
    while i < n
        invariant
            n == data.len(),
            i <= n,
            parts == data.deep_view().map_values(|t: Seq<char>| tag_condition(t)),
            line@ == "FILTER "@ + join(parts.take(i as int), " AND "@),
        decreases n - i,
    {
        let ghost before = line@;
        if i != 0 {
            line.append(" AND ");
        }
        line.append("'");
        line.append(data[i].as_str());
        line.append("' IN ele.tags ");
        proof {
            assert(parts[i as int] == tag_condition(data[i as int]@));
            assert(parts.take(i + 1).drop_last() =~= parts.take(i as int));
            assert(parts.take(i + 1).last() == parts[i as int]);
            assert(line@ =~= "FILTER "@ + join(parts.take(i + 1), " AND "@));
        }
        i += 1;
    }
    assert(parts.take(n as int) =~= parts);
    line
}

/// Appends the LIMIT part of a query for `page`.
fn append_limit(query: &mut String, page: Option<Pagination>)
    ensures
        final(query)@ == old(query)@ + limit_part(page),
{
    if let Some(p) = page {
        if p.count > 0 {
            query.append(" LIMIT ");
            append_decimal(query, p.offset);
            query.append(" , ");
            append_decimal(query, p.count);
            query.append(" ");
        }
    }
    assert(final(query)@ =~= old(query)@ + limit_part(page));
}

/// Appends the SORT line for `sort`.
fn append_sort(query: &mut String, sort: Sort)
    ensures
        final(query)@ == old(query)@ + sort_line(sort),
{
    match sort {
        Sort::ALL => query.append("SORT ele.date DESC "),
        Sort::BRIGHT => query.append("SORT (ele.upvotes / (ele.upvotes + ele.downvotes)) DESC "),
    }
}

/// Appends the filter of a query for `tags`.
fn append_tags(query: &mut String, tags: Option<Vec<String>>)
    ensures
        final(query)@ == old(query)@ + tags_part(tags),
{
    if let Some(t) = tags {
        let line = filter_with(t);
        query.append(line.as_str());
    }
    assert(final(query)@ =~= old(query)@ + tags_part(tags));
}

/// The query that lists the ideas `msg` asks for: with its tags, in its
/// order, and on its page.
pub fn query_simple(msg: QueryIdea) -> (query: String)
    ensures
        query@ == simple_query_text(msg),
{
    let mut query = "FOR ele in ideas ".to_owned();
    append_tags(&mut query, msg.tags);
    append_sort(&mut query, msg.sort);
    append_limit(&mut query, msg.pagination);
    query.append("RETURN ele");
    assert(query@ =~= simple_query_text(msg));
    query
}

/// The query that searches the ideas' texts for the words of `msg`, with
/// its tags, in its order then by relevance, and on its page.
pub fn query_with_search(msg: QueryIdea) -> (query: String)
    requires
        msg.query is Some,
    ensures
        query@ == search_query_text(msg),
{
    let mut query = "FOR ele in idea_search SEARCH ANALYZER(ele.text IN TOKENS('".to_owned();
    match &msg.query {
        Some(words) => query.append(words.as_str()),
        None => {},
    }
    query.append("' , 'text_en'), 'text_en') ");
    append_tags(&mut query, msg.tags);
    append_sort(&mut query, msg.sort);
    query.append(" SORT TFIDF(ele) DESC ");
    append_limit(&mut query, msg.pagination);
    query.append("RETURN ele");
    assert(query@ =~= search_query_text(msg));
    query
}

/// The request that answers `msg`: the idea with its key where it names one,
/// else a search where it holds words, else a listing; in batches of 50.
pub fn idea_query(msg: QueryIdea) -> (r: AqlRequest)
    ensures
        r@ == (AqlView { query: idea_query_text(msg), bind_vars: Seq::empty(), batch_size: Some(50) }),
{
    let ghost m = msg;
    let text = if msg.id.is_some() {
        let mut q = "RETURN DOCUMENT(CONCAT('ideas/', ".to_owned();
        match &msg.id {
            Some(id) => q.append(id.as_str()),
            None => {},
        }
        q.append(" ))");
        q
    } else if msg.query.is_some() {
        query_with_search(msg)
    } else {
        query_simple(msg)
    };
    assert(text@ =~= idea_query_text(m));
    AqlRequest::from_text(text).batch_size(50)
}

/// The first part of the query that stores the idea `data` (its JSON text)
/// of `owner_id` and links it to its owner.
pub open spec fn insert_idea_text(data: Seq<char>, owner_id: Seq<char>) -> Seq<char> {
    "let tags = (for t in "@ + data + ".tags return Document('tags', t))\n            INSERT MERGE("@
        + data + ", {date: DATE_NOW()}) INTO "@ + "ideas"@ + " LET idea = NEW\n\t\t\tINSERT { _from: idea._id, _to: '"@
        + "users/"@ + owner_id + "' } INTO idea_owner\n            "@
}

/// The end of the query that stores an idea: it returns the idea, after
/// counting it in and linking it to each of its tags where it has some.
pub open spec fn insert_idea_return(has_tags: bool) -> Seq<char> {
    if has_tags {
        " RETURN FIRST (FOR tag IN tags\n            UPDATE tag WITH {count : tag.count + 1} IN tags\n            INSERT { _from: tag._id, _to: idea._id } INTO tag_to_idea\n            RETURN idea)"@
    } else {
        " RETURN idea"@
    }
}

/// The request that stores `idea`, whose document (see `IdeaDraft`) has
/// the JSON text `data`, for the owner `owner`; in batches of 1.
pub fn new_idea_query(idea: &NewIdea, owner: &Owner, data: &str) -> (r: AqlRequest)
    ensures
        r@ == (AqlView {
            query: insert_idea_text(data@, owner.id@) + insert_idea_return(idea.tags@.len() > 0),
            bind_vars: Seq::empty(),
            batch_size: Some(1),
        }),
{
    let mut q = "let tags = (for t in ".to_owned();
    q.append(data);
    q.append(".tags return Document('tags', t))\n            INSERT MERGE(");
    q.append(data);
    q.append(", {date: DATE_NOW()}) INTO ");
    q.append("ideas");
    q.append(" LET idea = NEW\n\t\t\tINSERT { _from: idea._id, _to: '");
    q.append("users/");
    q.append(owner.id.as_str());
    q.append("' } INTO idea_owner\n            ");
    if idea.tags.len() == 0 {
        q.append(" RETURN idea");
    } else {
        q.append(
            " RETURN FIRST (FOR tag IN tags\n            UPDATE tag WITH {count : tag.count + 1} IN tags\n            INSERT { _from: tag._id, _to: idea._id } INTO tag_to_idea\n            RETURN idea)",
        );
    }
    assert(q@ =~= insert_idea_text(data@, owner.id@) + insert_idea_return(idea.tags@.len() > 0));
    AqlRequest::from_text(q).batch_size(1)
}

/// The document handle under which an owner is looked up: `id` itself where
/// it is a full handle (it holds a `/`), else the key `id` in `users`.
pub open spec fn owner_ident(id: Seq<char>) -> Seq<char> {
    if id.contains('/') {
        id
    } else {
        "users/"@ + id
    }
}

/// The query that returns the document with a handle.
pub open spec fn document_text() -> Seq<char> {
    "RETURN DOCUMENT(@ident)"@
}

impl Owner {
    /// The request that fetches the owner (a user) with the key or handle
    /// `id`; in batches of 1.
    pub fn get_owner(id: String) -> (r: AqlRequest)
        ensures
            r@ == (AqlView {
                query: document_text(),
                bind_vars: seq![("ident"@, BindValueView::Text(owner_ident(id@)))],
                batch_size: Some(1),
            }),
    {
        let ident = if contains_char(id.as_str(), '/') {
            id
        } else {
            let mut s = "users/".to_owned();
            s.append(id.as_str());
            s
        };
        let ghost i = ident@;
        let r = AqlRequest::new("RETURN DOCUMENT(@ident)").bind_var("ident", BindValue::Text(ident)).batch_size(1);
        assert(r@.bind_vars =~= seq![("ident"@, BindValueView::Text(i))]);
        r
    }
}

/// The query that searches the ideas' texts for the words given, most
/// relevant first.
pub open spec fn search_text() -> Seq<char> {
    "\nFOR doc in idea_search\nSEARCH ANALYZER(doc.text IN TOKENS(@query, 'text_en'), 'text_en')\nSORT TFIDF(doc) DESC\nRETURN doc\n"@
}

/// The request that searches the ideas' texts for `words`; in batches of
/// 50.
pub fn search_query(words: String) -> (r: AqlRequest)
    ensures
        r@ == (AqlView {
            query: search_text(),
            bind_vars: seq![("query"@, BindValueView::Text(words@))],
            batch_size: Some(50),
        }),
{
    let ghost w = words@;
    let r = AqlRequest::new(
        "\nFOR doc in idea_search\nSEARCH ANALYZER(doc.text IN TOKENS(@query, 'text_en'), 'text_en')\nSORT TFIDF(doc) DESC\nRETURN doc\n",
    ).bind_var("query", BindValue::Text(words)).batch_size(50);
    assert(r@.bind_vars =~= seq![("query"@, BindValueView::Text(w))]);
    r
}

/// The query that finds the idea with a key among the ideas of the user of
/// a bearer token.
pub open spec fn owned_idea_text() -> Seq<char> {
    "\n            let idea = FIRST (\n            FOR i in 2..2 ANY DOCUMENT('bearer_tokens', @token) bearer_to_user, idea_owner\n            FILTER i._key == @idea_key\n            return i\n            )\n            RETURN idea\n\t\t"@
}

/// A request to delete the idea with the key `idea_id` on behalf of the
/// user of the bearer token `token`.
#[derive(Debug, Clone)]
pub struct DeleteIdea {
    pub token: String,
    pub idea_id: String,
}

impl DeleteIdea {
    /// The request that finds the idea to delete among the ideas of the
    /// user of the token; in batches of 1.
    pub fn aql(&self) -> (r: AqlRequest)
        ensures
            r@ == (AqlView {
                query: owned_idea_text(),
                bind_vars: seq![
                    ("token"@, BindValueView::Text(self.token@)),
                    ("idea_key"@, BindValueView::Text(self.idea_id@)),
                ],
                batch_size: Some(1),
            }),
    {
        let r = AqlRequest::new(
            "\n            let idea = FIRST (\n            FOR i in 2..2 ANY DOCUMENT('bearer_tokens', @token) bearer_to_user, idea_owner\n            FILTER i._key == @idea_key\n            return i\n            )\n            RETURN idea\n\t\t",
        ).bind_var("token", BindValue::Text(self.token.clone())).bind_var(
            "idea_key",
            BindValue::Text(self.idea_id.clone()),
        ).batch_size(1);
        assert(r@.bind_vars =~= seq![
            ("token"@, BindValueView::Text(self.token@)),
            ("idea_key"@, BindValueView::Text(self.idea_id@)),
        ]);
        r
    }
}

/// The URL of the graph API of the database at `host`:`port` that deletes
/// the idea with the key `key`, with its edges.
pub open spec fn idea_vertex_url_text(host: Seq<char>, port: Seq<char>, key: Seq<char>) -> Seq<char> {
    "http://"@ + host + ":"@ + port + "/_db/"@ + "test_db"@ + "/_api/gharial/"@ + "rel"@
        + "/vertex/ideas/"@ + key
}

/// The URL that deletes the idea with the key `key` through the graph API
/// of the database at `host`:`port`.
pub fn idea_vertex_url(host: &str, port: &str, key: &str) -> (url: String)
    ensures
        url@ == idea_vertex_url_text(host@, port@, key@),
{
    let mut url = "http://".to_owned();
    url.append(host);
    url.append(":");
    url.append(port);
    url.append("/_db/");
    url.append("test_db");
    url.append("/_api/gharial/");
    url.append("rel");
    url.append("/vertex/ideas/");
    url.append(key);
    assert(url@ =~= idea_vertex_url_text(host@, port@, key@));
    url
}

/// A page of count zero asks for no limit: the listing query for it is the
/// one for no page at all.
pub proof fn lemma_empty_page_is_no_page(q: QueryIdea, offset: u32)
    ensures
        simple_query_text(QueryIdea { pagination: Some(Pagination { count: 0, offset }), ..q })
            == simple_query_text(QueryIdea { pagination: None, ..q }),
        search_query_text(QueryIdea { pagination: Some(Pagination { count: 0, offset }), ..q })
            == search_query_text(QueryIdea { pagination: None, ..q }),
{
}

/// Looking up a handle again gives the same handle: a handle holds a `/`.
pub proof fn lemma_owner_ident_idempotent(id: Seq<char>)
    ensures
        owner_ident(owner_ident(id)) == owner_ident(id),
{
    reveal_strlit("users/");
    if !id.contains('/') {
        let full = "users/"@ + id;
        assert(full[5] == '/');
        assert(full.contains('/'));
    }
}

/// The page part of a listing query asks for the page it is given: where
/// the page has ideas, it is ` LIMIT `, the offset, ` , ` and the count,
/// each written in decimal digits whose value is that number.
pub proof fn lemma_limit_reads_back(p: Pagination)
    requires
        p.count > 0,
    ensures
        exists|offset: Seq<char>, count: Seq<char>|
            limit_part(Some(p)) == " LIMIT "@ + offset + " , "@ + count + " "@
            && offset.len() > 0 && count.len() > 0
            && (forall|i: int| 0 <= i < offset.len() ==> is_digit(#[trigger] offset[i]))
            && (forall|i: int| 0 <= i < count.len() ==> is_digit(#[trigger] count[i]))
            && #[trigger] digits_value(offset) == p.offset && #[trigger] digits_value(count) == p.count,
{
    lemma_decimal_reads_back(p.offset as nat);
    lemma_decimal_reads_back(p.count as nat);
    let o = decimal(p.offset as nat);
    let c = decimal(p.count as nat);
    assert(limit_part(Some(p)) == " LIMIT "@ + o + " , "@ + c + " "@);
    assert(digits_value(o) == p.offset && digits_value(c) == p.count);
}

} // verus!
