//! Building requests: addresses, credentials and payloads.

use migadu_client::client::BASE_URL;
use migadu_client::payload::{
    collect, flag_slot, number_slot, render, render_value, set_text_slot, text_slot, texts_slot,
};
use migadu_client::text::{join, push_decimal, push_numeral, same};
use migadu_client::{
    CreateAlias, CreateForwarding, CreateIdentity, CreateMailbox, CreateRewrite, Field,
    FieldValue, Method, MigaduClient, UpdateAlias, UpdateForwarding, UpdateIdentity,
    UpdateMailbox, UpdateRewrite,
};

fn names(fields: &[Field]) -> Vec<&str> {
    fields.iter().map(|f| f.name.as_str()).collect()
}

fn client() -> MigaduClient {
    MigaduClient::with_base_url("me@example.com", "secret", "http://host/v1")
}

#[test]
fn join_puts_the_separator_between_parts() {
    let parts = vec!["a@x".to_string(), "b@x".to_string(), "c@x".to_string()];
    assert_eq!(join(&parts, ","), "a@x,b@x,c@x");
    assert_eq!(join(&parts, ", "), "a@x, b@x, c@x");
    assert_eq!(join(&parts[..1], ","), "a@x");
    assert_eq!(join(&[], ","), "");
    assert_eq!(join(&["".to_string(), "".to_string()], ","), ",");
}

#[test]
fn numerals_are_decimal() {
    let mut out = String::from("n=");
    push_numeral(&mut out, 0);
    assert_eq!(out, "n=0");
    let mut out = String::new();
    push_numeral(&mut out, 404);
    assert_eq!(out, "404");
    let mut out = String::new();
    push_numeral(&mut out, u64::MAX);
    assert_eq!(out, "18446744073709551615");
    let mut out = String::new();
    push_decimal(&mut out, -2147483648);
    assert_eq!(out, "-2147483648");
    let mut out = String::new();
    push_decimal(&mut out, i64::MIN);
    assert_eq!(out, "-9223372036854775808");
    let mut out = String::new();
    push_decimal(&mut out, 10);
    assert_eq!(out, "10");
}

#[test]
fn same_compares_texts() {
    assert!(same("configure", "configure"));
    assert!(!same("configure", "Configure"));
    assert!(!same("a", "ab"));
    assert!(same("", ""));
}

#[test]
fn create_alias_from_destinations_joins_with_commas() {
    let request =
        CreateAlias::from_destinations("team", &["a@x".to_string(), "b@x".to_string()]);
    assert_eq!(request.local_part, "team");
    assert_eq!(request.destinations, "a@x,b@x");
    assert_eq!(request.is_internal, None);
}

#[test]
fn create_rewrite_from_destinations_joins_with_commas() {
    let request = CreateRewrite::from_destinations(
        "support",
        "support-*",
        &["a@x".to_string(), "b@x".to_string()],
    );
    assert_eq!(request.name, "support");
    assert_eq!(request.local_part_rule, "support-*");
    assert_eq!(request.destinations, "a@x,b@x");
    assert_eq!(request.order_num, None);
}

#[test]
fn from_destinations_of_one_and_of_none() {
    assert_eq!(CreateAlias::from_destinations("t", &["a@x".to_string()]).destinations, "a@x");
    assert_eq!(CreateAlias::from_destinations("t", &[]).destinations, "");
    assert_eq!(CreateRewrite::from_destinations("n", "r", &[]).destinations, "");
}

#[test]
fn constructors_set_the_required_fields_only() {
    let mailbox = CreateMailbox::new("demo", "Demo User", "secure-password");
    assert_eq!(mailbox.local_part, "demo");
    assert_eq!(mailbox.name, "Demo User");
    assert_eq!(mailbox.password, "secure-password");
    assert_eq!(mailbox.password_recovery_email, None);
    assert_eq!(mailbox.is_internal, None);

    let identity = CreateIdentity::new("sales", "Sales");
    assert_eq!(identity.local_part, "sales");
    assert_eq!(identity.name, "Sales");
    assert_eq!(identity.password, None);
    assert_eq!(identity.may_send, None);
    assert_eq!(identity.may_receive, None);
    assert_eq!(identity.may_access_imap, None);
    assert_eq!(identity.may_access_pop3, None);
    assert_eq!(identity.may_access_managesieve, None);

    let alias = CreateAlias::new("team", "a@x,b@x");
    assert_eq!(alias.local_part, "team");
    assert_eq!(alias.destinations, "a@x,b@x");
    assert_eq!(alias.is_internal, None);

    let rewrite = CreateRewrite::new("support", "support-*", "a@x");
    assert_eq!(rewrite.name, "support");
    assert_eq!(rewrite.local_part_rule, "support-*");
    assert_eq!(rewrite.destinations, "a@x");
    assert_eq!(rewrite.order_num, None);

    let forwarding = CreateForwarding::new("out@y.org");
    assert_eq!(forwarding.address, "out@y.org");

    let update = UpdateAlias::with_destinations("c@x");
    assert_eq!(update.destinations.as_deref(), Some("c@x"));
    assert_eq!(update.is_internal, None);
}

#[test]
fn slots_are_filled_where_a_value_is_set() {
    assert!(text_slot("name", &None).is_none());
    assert!(flag_slot("is_internal", &None).is_none());
    assert!(number_slot("order_num", &None).is_none());
    assert!(texts_slot("sender_denylist", &None).is_none());
    let field = text_slot("name", &Some("n".to_string())).unwrap();
    assert_eq!(field.name, "name");
    assert!(matches!(field.value, FieldValue::Text(s) if s == "n"));
    let field = set_text_slot("local_part", "lp").unwrap();
    assert_eq!(field.name, "local_part");
    assert!(matches!(field.value, FieldValue::Text(s) if s == "lp"));
    let field = flag_slot("is_internal", &Some(false)).unwrap();
    assert!(matches!(field.value, FieldValue::Flag(false)));
    let field = number_slot("order_num", &Some(-3)).unwrap();
    assert!(matches!(field.value, FieldValue::Number(-3)));
    let field = texts_slot("sender_denylist", &Some(vec!["a".to_string()])).unwrap();
    assert!(matches!(field.value, FieldValue::Texts(list) if list == vec!["a"]));
}

#[test]
fn collect_keeps_the_filled_slots_in_order() {
    let fields = collect(vec![
        None,
        text_slot("b", &Some("1".to_string())),
        None,
        flag_slot("a", &Some(true)),
        None,
    ]);
    assert_eq!(names(&fields), vec!["b", "a"]);
    assert!(collect(vec![None, None]).is_empty());
    assert!(collect(Vec::new()).is_empty());
}

#[test]
fn update_with_one_field_set_sends_exactly_that_field() {
    let update = UpdateMailbox { name: Some("New Name".to_string()), ..Default::default() };
    let fields = update.payload();
    assert_eq!(names(&fields), vec!["name"]);
    assert_eq!(render(&fields), r#"{"name":"New Name"}"#);

    let update = UpdateMailbox { footer_active: Some(false), ..Default::default() };
    assert_eq!(render(&update.payload()), r#"{"footer_active":false}"#);

    let update = UpdateMailbox {
        sender_denylist: Some(vec!["a@x".to_string(), "b@x".to_string()]),
        ..Default::default()
    };
    assert_eq!(render(&update.payload()), r#"{"sender_denylist":["a@x","b@x"]}"#);

    let update = UpdateIdentity { may_send: Some(true), ..Default::default() };
    assert_eq!(render(&update.payload()), r#"{"may_send":true}"#);

    let update = UpdateRewrite { order_num: Some(-2), ..Default::default() };
    assert_eq!(render(&update.payload()), r#"{"order_num":-2}"#);

    let update = UpdateForwarding { expires_on: Some("2030-01-01".to_string()), ..Default::default() };
    assert_eq!(render(&update.payload()), r#"{"expires_on":"2030-01-01"}"#);

    let update = UpdateAlias::with_destinations("c@x");
    assert_eq!(render(&update.payload()), r#"{"destinations":"c@x"}"#);
}

#[test]
fn update_with_nothing_set_sends_an_empty_object() {
    assert_eq!(render(&UpdateMailbox::default().payload()), "{}");
    assert_eq!(render(&UpdateAlias::default().payload()), "{}");
    assert_eq!(render(&UpdateRewrite::default().payload()), "{}");
    assert_eq!(render(&UpdateIdentity::default().payload()), "{}");
    assert_eq!(render(&UpdateForwarding::default().payload()), "{}");
}

#[test]
fn update_with_an_empty_value_still_sends_the_field() {
    let update = UpdateMailbox {
        autorespond_subject: Some(String::new()),
        recipient_denylist: Some(Vec::new()),
        ..Default::default()
    };
    assert_eq!(
        render(&update.payload()),
        r#"{"recipient_denylist":[],"autorespond_subject":""}"#
    );
}

#[test]
fn update_mailbox_sends_every_field_in_order() {
    let text = |s: &str| Some(s.to_string());
    let update = UpdateMailbox {
        name: text("n"),
        password: text("p"),
        password_recovery_email: text("r@x"),
        is_internal: Some(true),
        may_send: Some(false),
        may_receive: Some(true),
        may_access_imap: Some(false),
        may_access_pop3: Some(true),
        may_access_managesieve: Some(false),
        spam_action: text("folder"),
        spam_aggressiveness: text("strict"),
        sender_denylist: Some(vec!["d@x".to_string()]),
        sender_allowlist: Some(vec!["a@x".to_string()]),
        recipient_denylist: Some(vec![]),
        autorespond_active: Some(true),
        autorespond_subject: text("s"),
        autorespond_body: text("b"),
        autorespond_expires_on: text("2030-01-01"),
        footer_active: Some(true),
        footer_plain_body: text("fp"),
        footer_html_body: text("fh"),
    };
    assert_eq!(
        render(&update.payload()),
        concat_all(&[
            r#"{"name":"n","password":"p","password_recovery_email":"r@x","is_internal":true,"#,
            r#""may_send":false,"may_receive":true,"may_access_imap":false,"#,
            r#""may_access_pop3":true,"may_access_managesieve":false,"spam_action":"folder","#,
            r#""spam_aggressiveness":"strict","sender_denylist":["d@x"],"#,
            r#""sender_allowlist":["a@x"],"recipient_denylist":[],"autorespond_active":true,"#,
            r#""autorespond_subject":"s","autorespond_body":"b","#,
            r#""autorespond_expires_on":"2030-01-01","footer_active":true,"#,
            r#""footer_plain_body":"fp","footer_html_body":"fh"}"#,
        ])
    );
}

fn concat_all(parts: &[&str]) -> String {
    parts.concat()
}

#[test]
fn create_payloads_hold_the_required_fields() {
    let mailbox = CreateMailbox::new("demo", "Demo User", "pw");
    assert_eq!(
        render(&mailbox.payload()),
        r#"{"local_part":"demo","name":"Demo User","password":"pw"}"#
    );
    let mut mailbox = mailbox;
    mailbox.is_internal = Some(true);
    mailbox.password_recovery_email = Some("o@x".to_string());
    assert_eq!(
        render(&mailbox.payload()),
        r#"{"local_part":"demo","name":"Demo User","password":"pw","password_recovery_email":"o@x","is_internal":true}"#
    );

    let mut identity = CreateIdentity::new("sales", "Sales");
    assert_eq!(render(&identity.payload()), r#"{"local_part":"sales","name":"Sales"}"#);
    identity.may_access_pop3 = Some(false);
    assert_eq!(
        render(&identity.payload()),
        r#"{"local_part":"sales","name":"Sales","may_access_pop3":false}"#
    );

    let mut rewrite = CreateRewrite::new("support", "support-*", "a@x,b@x");
    rewrite.order_num = Some(12);
    assert_eq!(
        render(&rewrite.payload()),
        r#"{"name":"support","local_part_rule":"support-*","destinations":"a@x,b@x","order_num":12}"#
    );

    assert_eq!(
        render(&CreateForwarding::new("out@y.org").payload()),
        r#"{"address":"out@y.org"}"#
    );
    assert_eq!(
        render(&CreateAlias::new("team", "").payload()),
        r#"{"local_part":"team","destinations":""}"#
    );
}

#[test]
fn render_escapes_texts_as_json_does() {
    let value = FieldValue::Text("say \"hi\"\\\n\ttab \u{1} \u{e9}".to_string());
    assert_eq!(render_value(&value), "\"say \\\"hi\\\"\\\\\\n\\ttab \\u0001 \u{e9}\"");
    let fields = vec![Field { name: "a\"b".to_string(), value: FieldValue::Flag(true) }];
    assert_eq!(render(&fields), "{\"a\\\"b\":true}");
    let list = FieldValue::Texts(vec!["x".to_string(), "\"".to_string()]);
    assert_eq!(render_value(&list), "[\"x\",\"\\\"\"]");
    assert_eq!(render_value(&FieldValue::Texts(Vec::new())), "[]");
    assert_eq!(render_value(&FieldValue::Number(i32::MIN)), "-2147483648");
    assert_eq!(render_value(&FieldValue::Number(0)), "0");
    assert_eq!(render_value(&FieldValue::Flag(false)), "false");
}

#[test]
fn new_client_talks_to_the_service() {
    assert_eq!(BASE_URL, "https://api.migadu.com/v1");
    let client = MigaduClient::new("me@example.com", "secret");
    assert_eq!(client.url("/domains"), "https://api.migadu.com/v1/domains");
    let request = client.get("/domains/example.com/mailboxes");
    assert_eq!(request.url, "https://api.migadu.com/v1/domains/example.com/mailboxes");
    assert_eq!(request.username, "me@example.com");
    assert_eq!(request.password, "secret");
}

#[test]
fn requests_carry_method_address_credentials_and_payload() {
    let client = client();
    let fields = vec![Field { name: "a".to_string(), value: FieldValue::Number(1) }];

    let request = client.get("/x");
    assert_eq!(request.method, Method::Get);
    assert_eq!(request.url, "http://host/v1/x");
    assert_eq!(request.username, "me@example.com");
    assert_eq!(request.password, "secret");
    assert_eq!(request.body, None);

    let request = client.post("/x", &fields);
    assert_eq!(request.method, Method::Post);
    assert_eq!(request.url, "http://host/v1/x");
    assert_eq!(request.body.as_deref(), Some(r#"{"a":1}"#));

    let request = client.put("/x/y", &fields);
    assert_eq!(request.method, Method::Put);
    assert_eq!(request.url, "http://host/v1/x/y");
    assert_eq!(request.body.as_deref(), Some(r#"{"a":1}"#));

    let request = client.delete("/x/y");
    assert_eq!(request.method, Method::Delete);
    assert_eq!(request.url, "http://host/v1/x/y");
    assert_eq!(request.username, "me@example.com");
    assert_eq!(request.password, "secret");
    assert_eq!(request.body, None);
}

#[test]
fn mailbox_requests() {
    let c = client();
    let r = c.list_mailboxes("example.com");
    assert_eq!((r.method, r.url.as_str()), (Method::Get, "http://host/v1/domains/example.com/mailboxes"));
    assert_eq!(r.body, None);
    let r = c.get_mailbox("example.com", "demo");
    assert_eq!((r.method, r.url.as_str()), (Method::Get, "http://host/v1/domains/example.com/mailboxes/demo"));
    let r = c.create_mailbox("example.com", &CreateMailbox::new("demo", "D", "pw"));
    assert_eq!((r.method, r.url.as_str()), (Method::Post, "http://host/v1/domains/example.com/mailboxes"));
    assert_eq!(r.body.as_deref(), Some(r#"{"local_part":"demo","name":"D","password":"pw"}"#));
    let update = UpdateMailbox { name: Some("E".to_string()), ..Default::default() };
    let r = c.update_mailbox("example.com", "demo", &update);
    assert_eq!((r.method, r.url.as_str()), (Method::Put, "http://host/v1/domains/example.com/mailboxes/demo"));
    assert_eq!(r.body.as_deref(), Some(r#"{"name":"E"}"#));
    let r = c.delete_mailbox("example.com", "demo");
    assert_eq!((r.method, r.url.as_str()), (Method::Delete, "http://host/v1/domains/example.com/mailboxes/demo"));
    assert_eq!(r.body, None);
}

#[test]
fn alias_requests() {
    let c = client();
    let r = c.list_aliases("example.com");
    assert_eq!((r.method, r.url.as_str()), (Method::Get, "http://host/v1/domains/example.com/aliases"));
    let r = c.get_alias("example.com", "team");
    assert_eq!((r.method, r.url.as_str()), (Method::Get, "http://host/v1/domains/example.com/aliases/team"));
    let r = c.create_alias("example.com", &CreateAlias::new("team", "a@x"));
    assert_eq!((r.method, r.url.as_str()), (Method::Post, "http://host/v1/domains/example.com/aliases"));
    assert_eq!(r.body.as_deref(), Some(r#"{"local_part":"team","destinations":"a@x"}"#));
    let r = c.update_alias("example.com", "team", &UpdateAlias::with_destinations("b@x"));
    assert_eq!((r.method, r.url.as_str()), (Method::Put, "http://host/v1/domains/example.com/aliases/team"));
    assert_eq!(r.body.as_deref(), Some(r#"{"destinations":"b@x"}"#));
    let r = c.delete_alias("example.com", "team");
    assert_eq!((r.method, r.url.as_str()), (Method::Delete, "http://host/v1/domains/example.com/aliases/team"));
}

#[test]
fn rewrite_requests() {
    let c = client();
    let r = c.list_rewrites("example.com");
    assert_eq!((r.method, r.url.as_str()), (Method::Get, "http://host/v1/domains/example.com/rewrites"));
    let r = c.get_rewrite("example.com", "support");
    assert_eq!((r.method, r.url.as_str()), (Method::Get, "http://host/v1/domains/example.com/rewrites/support"));
    let r = c.create_rewrite("example.com", &CreateRewrite::new("support", "support-*", "a@x"));
    assert_eq!((r.method, r.url.as_str()), (Method::Post, "http://host/v1/domains/example.com/rewrites"));
    assert_eq!(
        r.body.as_deref(),
        Some(r#"{"name":"support","local_part_rule":"support-*","destinations":"a@x"}"#)
    );
    let update = UpdateRewrite { local_part_rule: Some("helpdesk-*".to_string()), ..Default::default() };
    let r = c.update_rewrite("example.com", "support", &update);
    assert_eq!((r.method, r.url.as_str()), (Method::Put, "http://host/v1/domains/example.com/rewrites/support"));
    assert_eq!(r.body.as_deref(), Some(r#"{"local_part_rule":"helpdesk-*"}"#));
    let r = c.delete_rewrite("example.com", "support");
    assert_eq!((r.method, r.url.as_str()), (Method::Delete, "http://host/v1/domains/example.com/rewrites/support"));
}

#[test]
fn identity_requests_name_the_mailbox() {
    let c = client();
    let r = c.list_identities("example.com", "demo");
    assert_eq!(
        (r.method, r.url.as_str()),
        (Method::Get, "http://host/v1/domains/example.com/mailboxes/demo/identities")
    );
    let r = c.get_identity("example.com", "demo", "sales");
    assert_eq!(
        (r.method, r.url.as_str()),
        (Method::Get, "http://host/v1/domains/example.com/mailboxes/demo/identities/sales")
    );
    let r = c.create_identity("example.com", "demo", &CreateIdentity::new("sales", "Sales"));
    assert_eq!(
        (r.method, r.url.as_str()),
        (Method::Post, "http://host/v1/domains/example.com/mailboxes/demo/identities")
    );
    assert_eq!(r.body.as_deref(), Some(r#"{"local_part":"sales","name":"Sales"}"#));
    let update = UpdateIdentity { name: Some("S".to_string()), ..Default::default() };
    let r = c.update_identity("example.com", "demo", "sales", &update);
    assert_eq!(
        (r.method, r.url.as_str()),
        (Method::Put, "http://host/v1/domains/example.com/mailboxes/demo/identities/sales")
    );
    assert_eq!(r.body.as_deref(), Some(r#"{"name":"S"}"#));
    let r = c.delete_identity("example.com", "demo", "sales");
    assert_eq!(
        (r.method, r.url.as_str()),
        (Method::Delete, "http://host/v1/domains/example.com/mailboxes/demo/identities/sales")
    );
}

#[test]
fn forwarding_requests_name_the_mailbox() {
    let c = client();
    let r = c.list_forwardings("example.com", "demo");
    assert_eq!(
        (r.method, r.url.as_str()),
        (Method::Get, "http://host/v1/domains/example.com/mailboxes/demo/forwardings")
    );
    let r = c.get_forwarding("example.com", "demo", "out@y.org");
    assert_eq!(
        (r.method, r.url.as_str()),
        (Method::Get, "http://host/v1/domains/example.com/mailboxes/demo/forwardings/out@y.org")
    );
    let r = c.create_forwarding("example.com", "demo", &CreateForwarding::new("out@y.org"));
    assert_eq!(
        (r.method, r.url.as_str()),
        (Method::Post, "http://host/v1/domains/example.com/mailboxes/demo/forwardings")
    );
    assert_eq!(r.body.as_deref(), Some(r#"{"address":"out@y.org"}"#));
    let update = UpdateForwarding { is_active: Some(true), remove_upon_expiry: Some(false), ..Default::default() };
    let r = c.update_forwarding("example.com", "demo", "out@y.org", &update);
    assert_eq!(
        (r.method, r.url.as_str()),
        (Method::Put, "http://host/v1/domains/example.com/mailboxes/demo/forwardings/out@y.org")
    );
    assert_eq!(r.body.as_deref(), Some(r#"{"is_active":true,"remove_upon_expiry":false}"#));
    let r = c.delete_forwarding("example.com", "demo", "out@y.org");
    assert_eq!(
        (r.method, r.url.as_str()),
        (Method::Delete, "http://host/v1/domains/example.com/mailboxes/demo/forwardings/out@y.org")
    );
}
