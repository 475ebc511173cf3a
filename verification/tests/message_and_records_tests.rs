use catfacts::message::{message_body, message_subject, sender_name};
use catfacts::records::{CatFact, EmailRequest};
use catfacts::store::StoreQuery;

#[test]
fn body_embeds_the_fact_between_fixed_text() {
    assert_eq!(
        message_body("cats have 32 muscles in each ear"),
        "Hey there! You're receiving this message because you're subscribed to Cat Facts. \n\nDid you know cats have 32 muscles in each ear?"
    );
}

#[test]
fn body_of_empty_fact_is_just_the_frame() {
    assert_eq!(
        message_body(""),
        "Hey there! You're receiving this message because you're subscribed to Cat Facts. \n\nDid you know ?"
    );
}

#[test]
fn fixed_subject_and_sender() {
    assert_eq!(message_subject(), "Happy new year");
    assert_eq!(sender_name(), "Cat Facts");
}

#[test]
fn cat_fact_keeps_its_text() {
    let f = CatFact::new("cats purr at 26 hertz".to_string()).unwrap();
    assert_eq!(f.fact(), "cats purr at 26 hertz");
    assert_eq!(f.into_fact(), "cats purr at 26 hertz");
}

#[test]
fn empty_cat_fact_is_rejected() {
    assert!(CatFact::new(String::new()).is_none());
}

#[test]
fn email_request_keeps_its_address() {
    let r = EmailRequest::new("someone@example.com".to_string());
    assert_eq!(r.email(), "someone@example.com");
    assert_eq!(r.into_email(), "someone@example.com");
}

#[test]
fn query_texts_are_exact() {
    assert_eq!(
        StoreQuery::RandomFact.sql(),
        "SELECT fact FROM catfacts order by random() limit 1"
    );
    assert_eq!(StoreQuery::AllSubscribers.sql(), "SELECT email FROM subscribers");
    assert_eq!(
        StoreQuery::InsertFact { fact: "f".into() }.sql(),
        "INSERT INTO catfacts (fact) VALUES (?)"
    );
    assert_eq!(
        StoreQuery::InsertSubscriber { email: "e".into() }.sql(),
        "INSERT INTO subscribers (email) VALUES (?)"
    );
}

#[test]
fn schema_matches_the_persisted_interface() {
    assert_eq!(
        catfacts::store::create_facts_table_sql(),
        "CREATE TABLE IF NOT EXISTS catfacts (id integer primary key autoincrement, fact text not null, created_at datetime default current_timestamp)"
    );
    assert_eq!(
        catfacts::store::create_subscribers_table_sql(),
        "CREATE TABLE IF NOT EXISTS subscribers (id integer primary key autoincrement, email text not null, created_at datetime default current_timestamp)"
    );
}

#[test]
fn insert_params_carry_the_value_unchanged() {
    let q = StoreQuery::InsertFact { fact: "a cat fact".into() };
    assert_eq!(q.param(), Some(&"a cat fact".to_string()));
    let q = StoreQuery::InsertSubscriber { email: "a@x".into() };
    assert_eq!(q.param(), Some(&"a@x".to_string()));
    assert_eq!(StoreQuery::RandomFact.param(), None);
    assert_eq!(StoreQuery::AllSubscribers.param(), None);
}

#[test]
fn clock_reading_is_in_range() {
    let t = catfacts::clock::current_local_time();
    assert!(t <= catfacts::schedule::MAX_TIMESTAMP);
    // Well after 2020-01-01 on any sane clock; merely a sanity check.
    assert!(t > 1_577_836_800);
}
