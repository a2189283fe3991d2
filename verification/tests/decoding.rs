//! Reading records out of JSON.

use migadu_client::json::{nullable_bool, parse};
use migadu_client::types::{decode_all, decode_list};
use migadu_client::{Alias, Entity, Error, Forwarding, Identity, Json, Mailbox, Rewrite};

fn document(text: &str) -> Json {
    parse(text).expect("the text is JSON")
}

fn is_parse<T>(result: Result<T, Error>) -> bool {
    matches!(result, Err(Error::Parse(_)))
}

#[test]
fn parse_reads_every_kind_of_value() {
    let json = document(r#"{"b":[null,true,-7,"x",1.5,18446744073709551615],"a":{}}"#);
    match &json {
        Json::Object(members) => {
            assert_eq!(members.len(), 2);
            assert_eq!(members[0].name, "a");
            assert!(matches!(&members[0].value, Json::Object(inner) if inner.is_empty()));
            assert_eq!(members[1].name, "b");
        }
        other => panic!("expected an object, got {:?}", other),
    }
    match json.get("b") {
        Some(Json::Array(items)) => {
            assert_eq!(items.len(), 6);
            assert!(matches!(items[0], Json::Null));
            assert!(matches!(items[1], Json::Bool(true)));
            assert!(matches!(items[2], Json::Number(Some(-7))));
            assert!(matches!(&items[3], Json::Text(s) if s == "x"));
            assert!(matches!(items[4], Json::Number(None)));
            assert!(matches!(items[5], Json::Number(None)));
        }
        other => panic!("expected an array, got {:?}", other),
    }
}

#[test]
fn parse_refuses_what_is_no_json() {
    assert!(is_parse(parse("")));
    assert!(is_parse(parse("{")));
    assert!(is_parse(parse("<html>Bad Gateway</html>")));
    assert!(is_parse(parse("{\"a\":1} trailing")));
}

#[test]
fn parse_keeps_escaped_text() {
    let json = document(r#"{"name":"a \"quoted\" name\né"}"#);
    assert_eq!(json.text("name").unwrap(), "a \"quoted\" name\n\u{e9}");
}

#[test]
fn get_finds_members_of_objects_only() {
    let json = document(r#"{"a":1,"b":"two"}"#);
    assert!(matches!(json.get("a"), Some(Json::Number(Some(1)))));
    assert!(matches!(json.get("b"), Some(Json::Text(s)) if s == "two"));
    assert!(json.get("c").is_none());
    assert!(json.get("").is_none());
    assert!(document("[1,2]").get("a").is_none());
    assert!(document("\"a\"").get("a").is_none());
}

#[test]
fn get_takes_the_first_of_two_members_with_one_name() {
    let json = Json::Object(vec![
        migadu_client::json::Member { name: "a".to_string(), value: Json::Bool(true) },
        migadu_client::json::Member { name: "a".to_string(), value: Json::Bool(false) },
    ]);
    assert!(matches!(json.get("a"), Some(Json::Bool(true))));
}

#[test]
fn nullable_bool_absent_is_false() {
    assert_eq!(nullable_bool(None), Some(false));
    let json = document(r#"{"other":true}"#);
    assert_eq!(json.flag("is_internal").unwrap(), false);
}

#[test]
fn nullable_bool_null_is_false() {
    assert_eq!(nullable_bool(Some(&Json::Null)), Some(false));
    let json = document(r#"{"is_internal":null}"#);
    assert_eq!(json.flag("is_internal").unwrap(), false);
}

#[test]
fn nullable_bool_present_is_kept() {
    assert_eq!(nullable_bool(Some(&Json::Bool(true))), Some(true));
    assert_eq!(nullable_bool(Some(&Json::Bool(false))), Some(false));
    assert_eq!(document(r#"{"is_internal":true}"#).flag("is_internal").unwrap(), true);
    assert_eq!(document(r#"{"is_internal":false}"#).flag("is_internal").unwrap(), false);
}

#[test]
fn nullable_bool_of_another_kind_fails() {
    assert_eq!(nullable_bool(Some(&Json::Number(Some(1)))), None);
    assert_eq!(nullable_bool(Some(&Json::Text("true".to_string()))), None);
    assert!(is_parse(document(r#"{"is_internal":"yes"}"#).flag("is_internal")));
    assert!(is_parse(document(r#"{"is_internal":0}"#).flag("is_internal")));
}

#[test]
fn text_must_be_there() {
    let json = document(r#"{"a":"x","n":null,"i":3}"#);
    assert_eq!(json.text("a").unwrap(), "x");
    assert!(is_parse(json.text("missing")));
    assert!(is_parse(json.text("n")));
    assert!(is_parse(json.text("i")));
}

#[test]
fn optional_text_may_be_absent_or_null() {
    let json = document(r#"{"a":"x","n":null,"i":3,"e":""}"#);
    assert_eq!(json.optional_text("a").unwrap(), Some("x".to_string()));
    assert_eq!(json.optional_text("e").unwrap(), Some(String::new()));
    assert_eq!(json.optional_text("n").unwrap(), None);
    assert_eq!(json.optional_text("missing").unwrap(), None);
    assert!(is_parse(json.optional_text("i")));
}

#[test]
fn optional_flag_may_be_absent_or_null() {
    let json = document(r#"{"t":true,"f":false,"n":null,"s":"true"}"#);
    assert_eq!(json.optional_flag("t").unwrap(), Some(true));
    assert_eq!(json.optional_flag("f").unwrap(), Some(false));
    assert_eq!(json.optional_flag("n").unwrap(), None);
    assert_eq!(json.optional_flag("missing").unwrap(), None);
    assert!(is_parse(json.optional_flag("s")));
}

#[test]
fn optional_number_stays_in_the_range_of_i32() {
    let json = document(
        r#"{"a":7,"min":-2147483648,"max":2147483647,"over":2147483648,"under":-2147483649,
            "real":1.0,"n":null,"s":"7"}"#,
    );
    assert_eq!(json.optional_number("a").unwrap(), Some(7));
    assert_eq!(json.optional_number("min").unwrap(), Some(i32::MIN));
    assert_eq!(json.optional_number("max").unwrap(), Some(i32::MAX));
    assert_eq!(json.optional_number("n").unwrap(), None);
    assert_eq!(json.optional_number("missing").unwrap(), None);
    assert!(is_parse(json.optional_number("over")));
    assert!(is_parse(json.optional_number("under")));
    assert!(is_parse(json.optional_number("real")));
    assert!(is_parse(json.optional_number("s")));
}

#[test]
fn texts_are_empty_where_absent() {
    let json = document(r#"{"a":["x","y"],"e":[],"n":null,"mixed":["x",1],"s":"x"}"#);
    assert_eq!(json.texts("a").unwrap(), vec!["x", "y"]);
    assert_eq!(json.texts("e").unwrap(), Vec::<String>::new());
    assert_eq!(json.texts("missing").unwrap(), Vec::<String>::new());
    assert!(is_parse(json.texts("n")));
    assert!(is_parse(json.texts("mixed")));
    assert!(is_parse(json.texts("s")));
}

#[test]
fn items_must_be_an_array() {
    let json = document(r#"{"a":[1,"x"],"o":{},"n":null}"#);
    assert_eq!(json.items("a").unwrap().len(), 2);
    assert!(is_parse(json.items("o")));
    assert!(is_parse(json.items("n")));
    assert!(is_parse(json.items("missing")));
}

#[test]
fn mailbox_is_read_field_by_field() {
    let json = document(
        r#"{
            "address": "demo@example.com",
            "autorespond_active": false,
            "autorespond_body": null,
            "autorespond_expires_on": "2030-01-01",
            "autorespond_subject": "Away",
            "changed_at": "2024-01-01T00:00:00Z",
            "delegations": ["boss@example.com"],
            "domain_name": "example.com",
            "footer_active": null,
            "footer_html_body": "<b>x</b>",
            "footer_plain_body": "x",
            "identities": [],
            "is_internal": false,
            "local_part": "demo",
            "may_access_imap": true,
            "may_access_managesieve": true,
            "may_access_pop3": false,
            "may_receive": true,
            "may_send": true,
            "name": "Demo User",
            "password_recovery_email": "owner@example.org",
            "recipient_denylist": ["spam@example.net"],
            "sender_allowlist": [],
            "sender_denylist": ["a@b.c", "d@e.f"],
            "spam_action": "folder",
            "spam_aggressiveness": "default",
            "storage_usage": 12.5
        }"#,
    );
    let mailbox = Mailbox::from_json(&json).unwrap();
    assert_eq!(mailbox.local_part, "demo");
    assert_eq!(mailbox.domain_name, "example.com");
    assert_eq!(mailbox.address, "demo@example.com");
    assert_eq!(mailbox.name, "Demo User");
    assert!(!mailbox.is_internal);
    assert!(mailbox.may_send);
    assert!(mailbox.may_receive);
    assert!(mailbox.may_access_imap);
    assert!(!mailbox.may_access_pop3);
    assert!(mailbox.may_access_managesieve);
    assert_eq!(mailbox.password_recovery_email.as_deref(), Some("owner@example.org"));
    assert_eq!(mailbox.spam_action.as_deref(), Some("folder"));
    assert_eq!(mailbox.spam_aggressiveness.as_deref(), Some("default"));
    assert_eq!(mailbox.sender_denylist, vec!["a@b.c", "d@e.f"]);
    assert!(mailbox.sender_allowlist.is_empty());
    assert_eq!(mailbox.recipient_denylist, vec!["spam@example.net"]);
    assert!(!mailbox.autorespond_active);
    assert_eq!(mailbox.autorespond_subject.as_deref(), Some("Away"));
    assert_eq!(mailbox.autorespond_body, None);
    assert_eq!(mailbox.autorespond_expires_on.as_deref(), Some("2030-01-01"));
    assert!(!mailbox.footer_active);
    assert_eq!(mailbox.footer_plain_body.as_deref(), Some("x"));
    assert_eq!(mailbox.footer_html_body.as_deref(), Some("<b>x</b>"));
    assert_eq!(mailbox.delegations, vec!["boss@example.com"]);
    assert!(mailbox.identities.is_empty());
}

#[test]
fn mailbox_with_only_the_required_fields() {
    let json = document(
        r#"{"local_part":"a","domain_name":"x.org","address":"a@x.org","name":"A"}"#,
    );
    let mailbox = Mailbox::from_json(&json).unwrap();
    assert_eq!(mailbox.address, "a@x.org");
    assert!(!mailbox.is_internal);
    assert!(!mailbox.may_send);
    assert!(!mailbox.may_receive);
    assert!(!mailbox.may_access_imap);
    assert!(!mailbox.may_access_pop3);
    assert!(!mailbox.may_access_managesieve);
    assert!(!mailbox.footer_active);
    assert_eq!(mailbox.password_recovery_email, None);
    assert!(!mailbox.autorespond_active);
    assert!(mailbox.sender_denylist.is_empty());
    assert!(mailbox.delegations.is_empty());
}

#[test]
fn mailbox_autorespond_flag_reads_null_and_absent_as_false() {
    let member = |value: &str| {
        let json = document(&format!(
            r#"{{"local_part":"a","domain_name":"x.org","address":"a@x.org","name":"A"{}}}"#,
            value
        ));
        Mailbox::from_json(&json)
    };
    assert!(!member("").unwrap().autorespond_active);
    assert!(!member(r#","autorespond_active":null"#).unwrap().autorespond_active);
    assert!(!member(r#","autorespond_active":false"#).unwrap().autorespond_active);
    assert!(member(r#","autorespond_active":true"#).unwrap().autorespond_active);
    assert!(is_parse(member(r#","autorespond_active":"yes""#)));
    assert!(is_parse(member(r#","autorespond_active":1"#)));
}

#[test]
fn every_flag_of_a_mailbox_reads_null_as_false() {
    let json = document(
        r#"{"local_part":"a","domain_name":"x.org","address":"a@x.org","name":"A",
            "is_internal":null,"may_send":null,"may_receive":null,"may_access_imap":null,
            "may_access_pop3":null,"may_access_managesieve":null,"autorespond_active":null,
            "footer_active":null}"#,
    );
    let mailbox = Mailbox::from_json(&json).unwrap();
    assert!(!mailbox.is_internal);
    assert!(!mailbox.may_send);
    assert!(!mailbox.may_receive);
    assert!(!mailbox.may_access_imap);
    assert!(!mailbox.may_access_pop3);
    assert!(!mailbox.may_access_managesieve);
    assert!(!mailbox.autorespond_active);
    assert!(!mailbox.footer_active);
}

#[test]
fn mailbox_without_a_required_field_fails() {
    for missing in ["local_part", "domain_name", "address", "name"] {
        let members: Vec<String> = ["local_part", "domain_name", "address", "name"]
            .iter()
            .filter(|name| **name != missing)
            .map(|name| format!("\"{}\":\"x\"", name))
            .collect();
        let json = document(&format!("{{{}}}", members.join(",")));
        assert!(is_parse(Mailbox::from_json(&json)), "without {}", missing);
    }
}

#[test]
fn a_record_must_be_an_object() {
    assert!(is_parse(Mailbox::from_json(&document("null"))));
    assert!(is_parse(Alias::from_json(&document("\"alias\""))));
    assert!(is_parse(Rewrite::from_json(&document("[]"))));
    assert!(is_parse(Identity::from_json(&document("3"))));
    assert!(is_parse(Forwarding::from_json(&document("true"))));
}

#[test]
fn alias_is_read_field_by_field() {
    let json = document(
        r#"{"local_part":"team","domain_name":"x.org","address":"team@x.org",
            "is_internal":true,"destinations":["a@x.org","b@x.org"],"expireable":false}"#,
    );
    let alias = Alias::from_json(&json).unwrap();
    assert_eq!(alias.local_part, "team");
    assert_eq!(alias.domain_name, "x.org");
    assert_eq!(alias.address, "team@x.org");
    assert!(alias.is_internal);
    assert_eq!(alias.destinations, vec!["a@x.org", "b@x.org"]);
}

#[test]
fn alias_decodes_null_flag_and_absent_destinations() {
    let json = document(
        r#"{"local_part":"team","domain_name":"x.org","address":"team@x.org","is_internal":null}"#,
    );
    let alias = Alias::from_json(&json).unwrap();
    assert!(!alias.is_internal);
    assert!(alias.destinations.is_empty());
}

#[test]
fn alias_with_null_destinations_fails() {
    let json = document(
        r#"{"local_part":"team","domain_name":"x.org","address":"team@x.org","destinations":null}"#,
    );
    assert!(is_parse(Alias::from_json(&json)));
}

#[test]
fn rewrite_is_read_field_by_field() {
    let json = document(
        r#"{"name":"support","domain_name":"x.org","local_part_rule":"support-*",
            "order_num":3,"destinations":["help@x.org"]}"#,
    );
    let rewrite = Rewrite::from_json(&json).unwrap();
    assert_eq!(rewrite.name, "support");
    assert_eq!(rewrite.domain_name.as_deref(), Some("x.org"));
    assert_eq!(rewrite.local_part_rule, "support-*");
    assert_eq!(rewrite.order_num, Some(3));
    assert_eq!(rewrite.destinations, vec!["help@x.org"]);

    let bare = document(r#"{"name":"support","local_part_rule":"support-*"}"#);
    let rewrite = Rewrite::from_json(&bare).unwrap();
    assert_eq!(rewrite.domain_name, None);
    assert_eq!(rewrite.order_num, None);
    assert!(rewrite.destinations.is_empty());

    let broken = document(r#"{"name":"support","local_part_rule":"support-*","order_num":"3"}"#);
    assert!(is_parse(Rewrite::from_json(&broken)));
}

#[test]
fn identity_is_read_field_by_field() {
    let json = document(
        r#"{"local_part":"sales","domain_name":"x.org","address":"sales@x.org","name":"Sales",
            "may_send":true,"may_receive":null,"may_access_imap":false,
            "footer_active":true,"footer_plain_body":"-- ","footer_html_body":null}"#,
    );
    let identity = Identity::from_json(&json).unwrap();
    assert_eq!(identity.local_part, "sales");
    assert_eq!(identity.domain_name, "x.org");
    assert_eq!(identity.address, "sales@x.org");
    assert_eq!(identity.name, "Sales");
    assert!(identity.may_send);
    assert!(!identity.may_receive);
    assert!(!identity.may_access_imap);
    assert!(!identity.may_access_pop3);
    assert!(!identity.may_access_managesieve);
    assert!(identity.footer_active);
    assert_eq!(identity.footer_plain_body.as_deref(), Some("-- "));
    assert_eq!(identity.footer_html_body, None);
}

#[test]
fn forwarding_is_read_field_by_field() {
    let json = document(
        r#"{"address":"out@y.org","blocked_at":null,"confirmation_sent_at":"2024-01-01",
            "confirmed_at":"2024-01-02","expires_on":null,"is_active":true,
            "remove_upon_expiry":false}"#,
    );
    let forwarding = Forwarding::from_json(&json).unwrap();
    assert_eq!(forwarding.address, "out@y.org");
    assert_eq!(forwarding.blocked_at, None);
    assert_eq!(forwarding.confirmation_sent_at.as_deref(), Some("2024-01-01"));
    assert_eq!(forwarding.confirmed_at.as_deref(), Some("2024-01-02"));
    assert_eq!(forwarding.expires_on, None);
    assert!(forwarding.is_active);
    assert_eq!(forwarding.remove_upon_expiry, Some(false));

    let bare = Forwarding::from_json(&document(r#"{"address":"out@y.org"}"#)).unwrap();
    assert!(!bare.is_active);
    assert_eq!(bare.remove_upon_expiry, None);
}

#[test]
fn envelope_names_follow_the_service() {
    assert_eq!(Mailbox::envelope_key(), "mailboxes");
    assert_eq!(Alias::envelope_key(), "address_aliases");
    assert_eq!(Rewrite::envelope_key(), "rewrites");
    assert_eq!(Identity::envelope_key(), "identities");
    assert_eq!(Forwarding::envelope_key(), "forwardings");
}

#[test]
fn list_yields_the_content_of_the_envelope_in_order() {
    let json = document(
        r#"{"address_aliases":[
            {"local_part":"b","domain_name":"x.org","address":"b@x.org","destinations":["1@x.org"]},
            {"local_part":"a","domain_name":"x.org","address":"a@x.org","is_internal":true},
            {"local_part":"c","domain_name":"x.org","address":"c@x.org"}
        ]}"#,
    );
    let aliases: Vec<Alias> = decode_list(&json).unwrap();
    let keys: Vec<&str> = aliases.iter().map(|a| a.local_part.as_str()).collect();
    assert_eq!(keys, vec!["b", "a", "c"]);
    assert_eq!(aliases[0].destinations, vec!["1@x.org"]);
    assert!(aliases[1].is_internal);
    assert!(aliases[2].destinations.is_empty());
}

#[test]
fn list_of_an_empty_envelope_is_empty() {
    let mailboxes: Vec<Mailbox> = decode_list(&document(r#"{"mailboxes":[]}"#)).unwrap();
    assert!(mailboxes.is_empty());
}

#[test]
fn list_without_the_envelope_fails() {
    assert!(is_parse(decode_list::<Mailbox>(&document(r#"{}"#))));
    assert!(is_parse(decode_list::<Mailbox>(&document(r#"{"mailbox":[]}"#))));
    // The service calls the list of aliases `address_aliases`, not `aliases`.
    assert!(is_parse(decode_list::<Alias>(&document(r#"{"aliases":[]}"#))));
    assert!(is_parse(decode_list::<Rewrite>(&document(r#"[]"#))));
}

#[test]
fn list_whose_envelope_is_no_sequence_fails() {
    assert!(is_parse(decode_list::<Mailbox>(&document(r#"{"mailboxes":null}"#))));
    assert!(is_parse(decode_list::<Mailbox>(&document(r#"{"mailboxes":{}}"#))));
    assert!(is_parse(decode_list::<Identity>(&document(r#"{"identities":"none"}"#))));
    assert!(is_parse(decode_list::<Forwarding>(&document(r#"{"forwardings":0}"#))));
}

#[test]
fn list_with_a_broken_record_fails() {
    let json = document(
        r#"{"forwardings":[{"address":"a@y.org"},{"is_active":true},{"address":"c@y.org"}]}"#,
    );
    assert!(is_parse(decode_list::<Forwarding>(&json)));
}

#[test]
fn decode_all_reads_each_item() {
    let json = document(r#"[{"address":"a@y.org"},{"address":"b@y.org","is_active":true}]"#);
    let items = match &json {
        Json::Array(items) => items,
        other => panic!("expected an array, got {:?}", other),
    };
    let forwardings: Vec<Forwarding> = decode_all(items).unwrap();
    assert_eq!(forwardings.len(), 2);
    assert_eq!(forwardings[1].address, "b@y.org");
    assert!(forwardings[1].is_active);
    assert!(!forwardings[0].is_active);
}
