use ideadog::aql::{AqlRequest, BindValue};
use ideadog::handler::ideas::{
    filter_with, idea_query, idea_vertex_url, new_idea_query, query_simple, query_with_search,
    search_query, DeleteIdea,
};
use ideadog::models::ideas::{NewIdea, Owner, Pagination, QueryIdea, Sort};

fn strings(v: &[&str]) -> Vec<String> {
    v.iter().map(|s| s.to_string()).collect()
}

fn text_of(b: &BindValue) -> String {
    match b {
        BindValue::Text(s) => s.clone(),
        _ => panic!("not a text"),
    }
}

#[test]
fn filter_with_one_tag() {
    assert_eq!(filter_with(strings(&["rust"])), "FILTER 'rust' IN ele.tags ");
}

#[test]
fn filter_with_several_tags() {
    assert_eq!(
        filter_with(strings(&["a", "b", "c"])),
        "FILTER 'a' IN ele.tags  AND 'b' IN ele.tags  AND 'c' IN ele.tags "
    );
}

#[test]
fn filter_with_no_tag() {
    assert_eq!(filter_with(vec![]), "FILTER ");
}

#[test]
fn query_simple_default_lists_newest_first() {
    let q = QueryIdea::default();
    assert_eq!(query_simple(q), "FOR ele in ideas SORT ele.date DESC RETURN ele");
}

#[test]
fn query_simple_with_tags_bright_and_page() {
    let q = QueryIdea {
        sort: Sort::BRIGHT,
        tags: Some(strings(&["x", "y"])),
        pagination: Some(Pagination { count: 10, offset: 20 }),
        ..QueryIdea::default()
    };
    assert_eq!(
        query_simple(q),
        "FOR ele in ideas FILTER 'x' IN ele.tags  AND 'y' IN ele.tags SORT (ele.upvotes / (ele.upvotes + ele.downvotes)) DESC  LIMIT 20 , 10 RETURN ele"
    );
}

#[test]
fn query_simple_page_of_zero_sets_no_limit() {
    let q = QueryIdea { pagination: Some(Pagination { count: 0, offset: 5 }), ..QueryIdea::default() };
    assert_eq!(query_simple(q), "FOR ele in ideas SORT ele.date DESC RETURN ele");
}

#[test]
fn query_simple_large_numbers() {
    let q = QueryIdea {
        pagination: Some(Pagination { count: 4294967295, offset: 0 }),
        ..QueryIdea::default()
    };
    assert_eq!(
        query_simple(q),
        "FOR ele in ideas SORT ele.date DESC  LIMIT 0 , 4294967295 RETURN ele"
    );
}

#[test]
fn query_with_search_words_tags_page() {
    let q = QueryIdea {
        query: Some("green energy".to_string()),
        tags: Some(strings(&["eco"])),
        pagination: Some(Pagination { count: 3, offset: 1 }),
        ..QueryIdea::default()
    };
    assert_eq!(
        query_with_search(q),
        "FOR ele in idea_search SEARCH ANALYZER(ele.text IN TOKENS('green energy' , 'text_en'), 'text_en') FILTER 'eco' IN ele.tags SORT ele.date DESC  SORT TFIDF(ele) DESC  LIMIT 1 , 3 RETURN ele"
    );
}

#[test]
fn idea_query_prefers_id_then_search_then_listing() {
    let by_id = idea_query(QueryIdea {
        id: Some("42".to_string()),
        query: Some("words".to_string()),
        ..QueryIdea::default()
    });
    assert_eq!(by_id.query, "RETURN DOCUMENT(CONCAT('ideas/', 42 ))");
    assert_eq!(by_id.batch_size, Some(50));
    assert!(by_id.bind_vars.is_empty());

    let search = idea_query(QueryIdea { query: Some("w".to_string()), ..QueryIdea::default() });
    assert!(search.query.starts_with("FOR ele in idea_search"));

    let listing = idea_query(QueryIdea::default());
    assert_eq!(listing.query, "FOR ele in ideas SORT ele.date DESC RETURN ele");
}

#[test]
fn new_idea_query_without_tags() {
    let idea = NewIdea { text: "t".to_string(), owner_id: "7".to_string(), tags: vec![] };
    let owner = Owner { id: "7".to_string(), username: "ann".to_string() };
    let r: AqlRequest = new_idea_query(&idea, &owner, "{\"text\":\"t\"}");
    assert_eq!(
        r.query,
        "let tags = (for t in {\"text\":\"t\"}.tags return Document('tags', t))\n            INSERT MERGE({\"text\":\"t\"}, {date: DATE_NOW()}) INTO ideas LET idea = NEW\n\t\t\tINSERT { _from: idea._id, _to: 'users/7' } INTO idea_owner\n             RETURN idea"
    );
    assert_eq!(r.batch_size, Some(1));
}

#[test]
fn new_idea_query_with_tags_counts_them() {
    let idea = NewIdea { text: "t".to_string(), owner_id: "7".to_string(), tags: strings(&["a"]) };
    let owner = Owner { id: "7".to_string(), username: "ann".to_string() };
    let r = new_idea_query(&idea, &owner, "{}");
    assert!(r.query.ends_with(
        " RETURN FIRST (FOR tag IN tags\n            UPDATE tag WITH {count : tag.count + 1} IN tags\n            INSERT { _from: tag._id, _to: idea._id } INTO tag_to_idea\n            RETURN idea)"
    ));
}

#[test]
fn owner_lookup_adds_collection_to_bare_key() {
    let r = Owner::get_owner("12".to_string());
    assert_eq!(r.query, "RETURN DOCUMENT(@ident)");
    assert_eq!(r.bind_vars.len(), 1);
    assert_eq!(r.bind_vars[0].0, "ident");
    assert_eq!(text_of(&r.bind_vars[0].1), "users/12");
    assert_eq!(r.batch_size, Some(1));
}

#[test]
fn owner_lookup_keeps_full_handle() {
    let r = Owner::get_owner("users/12".to_string());
    assert_eq!(text_of(&r.bind_vars[0].1), "users/12");
}

#[test]
fn search_query_binds_words() {
    let r = search_query("solar".to_string());
    assert_eq!(
        r.query,
        "\nFOR doc in idea_search\nSEARCH ANALYZER(doc.text IN TOKENS(@query, 'text_en'), 'text_en')\nSORT TFIDF(doc) DESC\nRETURN doc\n"
    );
    assert_eq!(r.bind_vars[0].0, "query");
    assert_eq!(text_of(&r.bind_vars[0].1), "solar");
    assert_eq!(r.batch_size, Some(50));
}

#[test]
fn delete_lookup_binds_token_and_key() {
    let d = DeleteIdea { token: "tok".to_string(), idea_id: "9".to_string() };
    let r = d.aql();
    assert_eq!(r.bind_vars[0].0, "token");
    assert_eq!(text_of(&r.bind_vars[0].1), "tok");
    assert_eq!(r.bind_vars[1].0, "idea_key");
    assert_eq!(text_of(&r.bind_vars[1].1), "9");
}

#[test]
fn vertex_url() {
    assert_eq!(
        idea_vertex_url("db.local", "8529", "77"),
        "http://db.local:8529/_db/test_db/_api/gharial/rel/vertex/ideas/77"
    );
}
