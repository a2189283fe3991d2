//! The decisions of a tool-calling bridge in front of the client.
//!
//! The bridge holds the configuration: a client and the domain to work on.
//! A call of the `configure` tool sets both. A call of any other tool
//! becomes a request, or an error reply where the configuration or an
//! argument is missing; what the service answered becomes the reply. The
//! caller does the sending, and guards the configuration against
//! concurrent calls: `configure` changes it, the other tools only read it.

use vstd::prelude::*;
use crate::api::aliases::aliases_path;
use crate::api::mailboxes::{mailbox_path, mailboxes_path};
use crate::api::rewrites::rewrites_path;
use crate::client::{
    BASE_URL, ClientView, Method, MigaduClient, Request, RequestView, Response, read_listing,
    read_record, record_in, records_in,
};
use crate::error::Error;
use crate::payload::{Field, FieldValue, FieldValueView, FieldView, copy_texts};
use crate::text::same;
use crate::types::alias::{Alias, AliasView};
use crate::types::mailbox::{Mailbox, MailboxView};
use crate::types::rewrite::{Rewrite, RewriteView};

verus! {

/// A tool that asks the service for something.
#[derive(Debug, Clone, Copy, PartialEq, Eq, Structural)]
pub enum Query {
    ListMailboxes,
    GetMailbox,
    ListAliases,
    ListRewrites,
}

/// A tool of the bridge.
#[derive(Debug, Clone, Copy, PartialEq, Eq, Structural)]
pub enum Tool {
    Configure,
    Fetch(Query),
}

/// The tool that goes by a name.
pub open spec fn tool_named(name: Seq<char>) -> Option<Tool> {
    if name == "configure"@ {
        Some(Tool::Configure)
    } else if name == "list_mailboxes"@ {
        Some(Tool::Fetch(Query::ListMailboxes))
    } else if name == "get_mailbox"@ {
        Some(Tool::Fetch(Query::GetMailbox))
    } else if name == "list_aliases"@ {
        Some(Tool::Fetch(Query::ListAliases))
    } else if name == "list_rewrites"@ {
        Some(Tool::Fetch(Query::ListRewrites))
    } else {
        None
    }
}

/// One argument of a tool call: its name, and its value where the value is
/// a text. A value of any other kind is `None`.
#[derive(Debug, Clone)]
pub struct Argument {
    pub name: String,
    pub value: Option<String>,
}

impl DeepView for Argument {
    type V = (Seq<char>, Option<Seq<char>>);

    open spec fn deep_view(&self) -> (Seq<char>, Option<Seq<char>>) {
        (self.name@, self.value.deep_view())
    }
}

/// What a tool reads for the argument called `name`: the text of the first
/// argument of that name. Where there is none, or where its value is no
/// text, the tool reads the empty text, as if the argument were missing.
pub open spec fn argument_of(
    arguments: Seq<(Seq<char>, Option<Seq<char>>)>,
    name: Seq<char>,
) -> Seq<char>
    decreases arguments.len(),
{
    if arguments.len() == 0 {
        Seq::empty()
    } else if arguments[0].0 == name {
        match arguments[0].1 {
            Some(text) => text,
            None => Seq::empty(),
        }
    } else {
        argument_of(arguments.drop_first(), name)
    }
}

/// What a tool call answers.
#[derive(Debug, Clone)]
pub enum Reply {
    /// An error payload.
    Failure(String),
    /// A success payload.
    Text(String),
    /// A success payload: a mailbox, to be written out as one JSON object
    /// that holds every field of the record under the field's name, with
    /// `null` for a field that has no value.
    Mailbox(Mailbox),
}

/// The mathematical content of a [`Reply`].
pub enum ReplyView {
    Failure(Seq<char>),
    Text(Seq<char>),
    Mailbox(MailboxView),
}

impl View for Reply {
    type V = ReplyView;

    open spec fn view(&self) -> ReplyView {
        match self {
            Reply::Failure(text) => ReplyView::Failure(text@),
            Reply::Text(text) => ReplyView::Text(text@),
            Reply::Mailbox(mailbox) => ReplyView::Mailbox(mailbox.deep_view()),
        }
    }
}

/// What to do about a tool call.
#[derive(Debug, Clone)]
pub enum Step {
    /// Answer at once.
    Reply(Reply),
    /// Send the request, and hand what comes back to [`finish`].
    Send(Query, Request),
}

/// The mathematical content of a [`Step`].
pub enum StepView {
    Reply(ReplyView),
    Send(Query, RequestView),
}

impl View for Step {
    type V = StepView;

    open spec fn view(&self) -> StepView {
        match self {
            Step::Reply(reply) => StepView::Reply(reply@),
            Step::Send(query, request) => StepView::Send(*query, request@),
        }
    }
}

/// The configuration of the bridge.
#[derive(Debug, Clone)]
pub struct Bridge {
    client: Option<MigaduClient>,
    domain: Option<String>,
}

/// The mathematical content of a [`Bridge`].
pub struct BridgeView {
    pub client: Option<ClientView>,
    pub domain: Option<Seq<char>>,
}

impl View for Bridge {
    type V = BridgeView;

    closed spec fn view(&self) -> BridgeView {
        BridgeView {
            client: match self.client {
                Some(client) => Some(client@),
                None => None,
            },
            domain: match self.domain {
                Some(domain) => Some(domain@),
                None => None,
            },
        }
    }
}

/// The error reply of a tool that needs a client where none is configured.
pub const NOT_CONFIGURED: &'static str =
    "Not configured. Set MIGADU_EMAIL and MIGADU_API_KEY env vars, or call 'configure' tool.";

/// The error reply of a tool that needs a domain where none is configured.
pub const DOMAIN_NOT_CONFIGURED: &'static str =
    "Domain not configured. Set MIGADU_DOMAIN env var, or call 'configure' tool.";

/// The path that a query asks for.
pub open spec fn path_of(query: Query, domain: Seq<char>, local_part: Seq<char>) -> Seq<char> {
    match query {
        Query::ListMailboxes => mailboxes_path(domain),
        Query::GetMailbox => mailbox_path(domain, local_part),
        Query::ListAliases => aliases_path(domain),
        Query::ListRewrites => rewrites_path(domain),
    }
}

impl BridgeView {
    /// The configuration after a call of `configure`: unchanged where one
    /// of the three arguments is missing or empty.
    pub open spec fn configured(
        self,
        arguments: Seq<(Seq<char>, Option<Seq<char>>)>,
    ) -> BridgeView {
        let email = argument_of(arguments, "email"@);
        let api_key = argument_of(arguments, "api_key"@);
        let domain = argument_of(arguments, "domain"@);
        if email.len() == 0 || api_key.len() == 0 || domain.len() == 0 {
            self
        } else {
            BridgeView {
                client: Some(ClientView { base_url: BASE_URL@, email, api_key }),
                domain: Some(domain),
            }
        }
    }

    /// What a call of `configure` answers.
    pub open spec fn configure_reply(
        self,
        arguments: Seq<(Seq<char>, Option<Seq<char>>)>,
    ) -> ReplyView {
        let email = argument_of(arguments, "email"@);
        let api_key = argument_of(arguments, "api_key"@);
        let domain = argument_of(arguments, "domain"@);
        if email.len() == 0 || api_key.len() == 0 || domain.len() == 0 {
            ReplyView::Failure("Missing required parameters: email, api_key, domain"@)
        } else {
            ReplyView::Text("Configured Migadu client for domain: "@ + domain)
        }
    }

    /// What to do about a query. A missing argument is reported before a
    /// missing client, and a missing client before a missing domain.
    pub open spec fn planned(
        self,
        query: Query,
        arguments: Seq<(Seq<char>, Option<Seq<char>>)>,
    ) -> StepView {
        let local_part = argument_of(arguments, "local_part"@);
        if query == Query::GetMailbox && local_part.len() == 0 {
            StepView::Reply(ReplyView::Failure("Missing required parameter: local_part"@))
        } else {
            match (self.client, self.domain) {
                (None, _) => StepView::Reply(ReplyView::Failure(NOT_CONFIGURED@)),
                (Some(_), None) => StepView::Reply(ReplyView::Failure(DOMAIN_NOT_CONFIGURED@)),
                (Some(client), Some(domain)) => StepView::Send(
                    query,
                    client.request(Method::Get, path_of(query, domain, local_part), None),
                ),
            }
        }
    }
}

/// What a tool lists of a mailbox.
pub open spec fn mailbox_summary(mailbox: MailboxView) -> Seq<FieldView> {
    seq![
        FieldView { name: "address"@, value: FieldValueView::Text(mailbox.address) },
        FieldView { name: "name"@, value: FieldValueView::Text(mailbox.name) },
    ]
}

/// What a tool lists of an alias.
pub open spec fn alias_summary(alias: AliasView) -> Seq<FieldView> {
    seq![
        FieldView { name: "address"@, value: FieldValueView::Text(alias.address) },
        FieldView { name: "destinations"@, value: FieldValueView::Texts(alias.destinations) },
    ]
}

/// What a tool lists of a rewrite rule.
pub open spec fn rewrite_summary(rewrite: RewriteView) -> Seq<FieldView> {
    seq![
        FieldView { name: "destinations"@, value: FieldValueView::Texts(rewrite.destinations) },
        FieldView {
            name: "local_part_rule"@,
            value: FieldValueView::Text(rewrite.local_part_rule),
        },
        FieldView { name: "name"@, value: FieldValueView::Text(rewrite.name) },
    ]
}

/// What `serde_json::to_string_pretty` writes for a list of objects, each
/// with the given fields as its members: JSON over several lines, indented
/// by two spaces.
pub uninterp spec fn pretty_text(records: Seq<Seq<FieldView>>) -> Seq<char>;

/// The reply to a query, from what the service answered.
///
/// A failure of the exchange is an error reply with the failure's
/// description. An answer that holds what the query asked for is a success
/// reply: of a list, what the summaries keep of each record, in the
/// answer's order, written as JSON; of `get_mailbox`, the mailbox.
pub open spec fn reply_to(query: Query, response: Response) -> ReplyView {
    match query {
        Query::ListMailboxes => match records_in::<Mailbox>(response) {
            Ok(records) => ReplyView::Text(
                pretty_text(records.map_values(|m: MailboxView| mailbox_summary(m))),
            ),
            Err(failure) => ReplyView::Failure(failure.description()),
        },
        Query::GetMailbox => match record_in::<Mailbox>(response) {
            Ok(mailbox) => ReplyView::Mailbox(mailbox),
            Err(failure) => ReplyView::Failure(failure.description()),
        },
        Query::ListAliases => match records_in::<Alias>(response) {
            Ok(records) => ReplyView::Text(
                pretty_text(records.map_values(|a: AliasView| alias_summary(a))),
            ),
            Err(failure) => ReplyView::Failure(failure.description()),
        },
        Query::ListRewrites => match records_in::<Rewrite>(response) {
            Ok(records) => ReplyView::Text(
                pretty_text(records.map_values(|r: RewriteView| rewrite_summary(r))),
            ),
            Err(failure) => ReplyView::Failure(failure.description()),
        },
    }
}

/// One parameter of a tool: a text that the call must give.
#[derive(Debug, Clone)]
pub struct Parameter {
    pub name: String,
    pub description: String,
}

/// How a tool presents itself: its name, what it does, and the parameters
/// that a call must give, each of them a text.
#[derive(Debug, Clone)]
pub struct ToolInfo {
    pub name: String,
    pub description: String,
    pub parameters: Vec<Parameter>,
}

/// The mathematical content of a [`Parameter`].
pub struct ParameterView {
    pub name: Seq<char>,
    pub description: Seq<char>,
}

/// The mathematical content of a [`ToolInfo`].
pub struct ToolInfoView {
    pub name: Seq<char>,
    pub description: Seq<char>,
    pub parameters: Seq<ParameterView>,
}

impl DeepView for Parameter {
    type V = ParameterView;

    open spec fn deep_view(&self) -> ParameterView {
        ParameterView { name: self.name@, description: self.description@ }
    }
}

impl DeepView for ToolInfo {
    type V = ToolInfoView;

    open spec fn deep_view(&self) -> ToolInfoView {
        ToolInfoView {
            name: self.name@,
            description: self.description@,
            parameters: self.parameters.deep_view(),
        }
    }
}

/// The tools that the bridge offers, in the order in which it lists them.
pub open spec fn catalog() -> Seq<ToolInfoView> {
    seq![
        ToolInfoView {
            name: "configure"@,
            description: "Configure the Migadu API client credentials"@,
            parameters: seq![
                ParameterView { name: "email"@, description: "Migadu account email"@ },
                ParameterView { name: "api_key"@, description: "Migadu API key"@ },
                ParameterView { name: "domain"@, description: "Domain to operate on"@ },
            ],
        },
        ToolInfoView {
            name: "list_mailboxes"@,
            description: "List all mailboxes for the configured domain"@,
            parameters: seq![],
        },
        ToolInfoView {
            name: "get_mailbox"@,
            description: "Get details of a specific mailbox"@,
            parameters: seq![
                ParameterView {
                    name: "local_part"@,
                    description: "Local part of the email (before @)"@,
                },
            ],
        },
        ToolInfoView {
            name: "list_aliases"@,
            description: "List all email aliases for the configured domain"@,
            parameters: seq![],
        },
        ToolInfoView {
            name: "list_rewrites"@,
            description: "List all rewrite rules for the configured domain"@,
            parameters: seq![],
        },
    ]
}

/// A parameter with its description.
fn parameter(name: &str, description: &str) -> (parameter: Parameter)
    ensures
        parameter.deep_view() == (ParameterView { name: name@, description: description@ }),
{
    Parameter { name: String::from_str(name), description: String::from_str(description) }
}

/// A tool with its description and parameters.
fn make_tool(name: &str, description: &str, parameters: Vec<Parameter>) -> (tool: ToolInfo)
    ensures
        tool.deep_view() == (ToolInfoView {
            name: name@,
            description: description@,
            parameters: parameters.deep_view(),
        }),
{
    ToolInfo {
        name: String::from_str(name),
        description: String::from_str(description),
        parameters,
    }
}

/// The tools that the bridge offers.
pub fn tools() -> (tools: Vec<ToolInfo>)
    ensures
        tools.deep_view() == catalog(),
{
    let configure = vec![
        parameter("email", "Migadu account email"),
        parameter("api_key", "Migadu API key"),
        parameter("domain", "Domain to operate on"),
    ];
    assert(configure.deep_view() =~= catalog()[0].parameters);
    let get_mailbox = vec![parameter("local_part", "Local part of the email (before @)")];
    assert(get_mailbox.deep_view() =~= catalog()[2].parameters);
    let none: Vec<Parameter> = Vec::new();
    assert(none.deep_view() =~= Seq::<ParameterView>::empty());
    let tools = vec![
        make_tool("configure", "Configure the Migadu API client credentials", configure),
        make_tool("list_mailboxes", "List all mailboxes for the configured domain", none.clone()),
        make_tool("get_mailbox", "Get details of a specific mailbox", get_mailbox),
        make_tool("list_aliases", "List all email aliases for the configured domain", none.clone()),
        make_tool("list_rewrites", "List all rewrite rules for the configured domain", none),
    ];
    assert(tools.deep_view() =~= catalog());
    tools
}

/// Every tool of the catalog goes by its name, and no two share one.
pub proof fn lemma_catalog_is_served()
    ensures
        catalog().len() == 5,
        tool_named(catalog()[0].name) == Some(Tool::Configure),
        tool_named(catalog()[1].name) == Some(Tool::Fetch(Query::ListMailboxes)),
        tool_named(catalog()[2].name) == Some(Tool::Fetch(Query::GetMailbox)),
        tool_named(catalog()[3].name) == Some(Tool::Fetch(Query::ListAliases)),
        tool_named(catalog()[4].name) == Some(Tool::Fetch(Query::ListRewrites)),
{
    reveal_strlit("configure");
    reveal_strlit("list_mailboxes");
    reveal_strlit("get_mailbox");
    reveal_strlit("list_aliases");
    reveal_strlit("list_rewrites");
    assert("configure"@.len() == 9);
    assert("list_mailboxes"@.len() == 14);
    assert("get_mailbox"@.len() == 11);
    assert("list_aliases"@.len() == 12);
    assert("list_rewrites"@.len() == 13);
}

/// The tool that goes by a name.
pub fn find_tool(name: &str) -> (tool: Option<Tool>)
    ensures
        tool == tool_named(name@),
{
    if same(name, "configure") {
        Some(Tool::Configure)
    } else if same(name, "list_mailboxes") {
        Some(Tool::Fetch(Query::ListMailboxes))
    } else if same(name, "get_mailbox") {
        Some(Tool::Fetch(Query::GetMailbox))
    } else if same(name, "list_aliases") {
        Some(Tool::Fetch(Query::ListAliases))
    } else if same(name, "list_rewrites") {
        Some(Tool::Fetch(Query::ListRewrites))
    } else {
        None
    }
}

/// The message for a name that no tool goes by.
pub fn unknown_tool(name: &str) -> (message: String)
    ensures
        message@ == "Unknown tool: "@ + name@,
{
    let mut message = String::from_str("Unknown tool: ");
    message.append(name);
    message
}

/// What a tool reads for the argument called `name`: its text, or the empty
/// text where the argument is missing or no text.
pub fn argument(arguments: &Vec<Argument>, name: &str) -> (value: String)
    ensures
        value@ == argument_of(arguments.deep_view(), name@),
{
    let ghost all = arguments.deep_view();
    let mut i: usize = 0;
    assert(all.skip(0) =~= all);
    while i < arguments.len()
        invariant
            i <= arguments.len(),
            all == arguments.deep_view(),
            argument_of(all, name@) == argument_of(all.skip(i as int), name@),
        decreases arguments.len() - i,
    {
        proof {
            assert(all.skip(i as int).drop_first() =~= all.skip(i + 1));
            assert(all.skip(i as int)[0] == all[i as int]);
        }
        if same(arguments[i].name.as_str(), name) {
            return match &arguments[i].value {
                Some(text) => text.clone(),
                None => String::new(),
            };
        }
        i = i + 1;
    }
    String::new()
}

impl Bridge {
    /// The configuration at the start: a client where both an account and
    /// a key are given, and the domain where one is given.
    pub fn new(
        email: Option<String>,
        api_key: Option<String>,
        domain: Option<String>,
    ) -> (bridge: Bridge)
        ensures
            bridge@.client == (match (email, api_key) {
                (Some(email), Some(api_key)) => Some(
                    ClientView { base_url: BASE_URL@, email: email@, api_key: api_key@ },
                ),
                _ => None,
            }),
            bridge@.domain == domain.deep_view(),
    {
        let client = match (email, api_key) {
            (Some(email), Some(api_key)) => Some(
                MigaduClient::new(email.as_str(), api_key.as_str()),
            ),
            _ => None,
        };
        Bridge { client, domain }
    }

    /// The tool `configure`: sets the client and the domain from the
    /// arguments `email`, `api_key` and `domain`. Where one of them is
    /// missing or empty, nothing changes and the reply is an error.
    pub fn configure(&mut self, arguments: &Vec<Argument>) -> (reply: Reply)
        ensures
            final(self)@ == old(self)@.configured(arguments.deep_view()),
            reply@ == old(self)@.configure_reply(arguments.deep_view()),
    {
        let email = argument(arguments, "email");
        let api_key = argument(arguments, "api_key");
        let domain = argument(arguments, "domain");
        if email.as_str().is_empty() || api_key.as_str().is_empty() || domain.as_str().is_empty() {
            return Reply::Failure(
                String::from_str("Missing required parameters: email, api_key, domain"),
            );
        }
        let mut text = String::from_str("Configured Migadu client for domain: ");
        text.append(domain.as_str());
        self.client = Some(MigaduClient::new(email.as_str(), api_key.as_str()));
        self.domain = Some(domain);
        Reply::Text(text)
    }

    /// What to do about a call of another tool: the request to send, or
    /// the error reply where an argument or the configuration is missing.
    pub fn plan(&self, query: Query, arguments: &Vec<Argument>) -> (step: Step)
        ensures
            step@ == self@.planned(query, arguments.deep_view()),
    {
        let local_part = argument(arguments, "local_part");
        if query == Query::GetMailbox && local_part.as_str().is_empty() {
            return Step::Reply(
                Reply::Failure(String::from_str("Missing required parameter: local_part")),
            );
        }
        let client = match &self.client {
            Some(client) => client,
            None => {
                return Step::Reply(Reply::Failure(String::from_str(NOT_CONFIGURED)));
            },
        };
        let domain = match &self.domain {
            Some(domain) => domain.as_str(),
            None => {
                return Step::Reply(Reply::Failure(String::from_str(DOMAIN_NOT_CONFIGURED)));
            },
        };
        let request = match query {
            Query::ListMailboxes => client.list_mailboxes(domain),
            Query::GetMailbox => client.get_mailbox(domain, local_part.as_str()),
            Query::ListAliases => client.list_aliases(domain),
            Query::ListRewrites => client.list_rewrites(domain),
        };
        Step::Send(query, request)
    }
}

/// A field that holds a text.
fn text_field(name: &str, value: &str) -> (field: Field)
    ensures
        field.deep_view() == (FieldView { name: name@, value: FieldValueView::Text(value@) }),
{
    Field { name: String::from_str(name), value: FieldValue::Text(String::from_str(value)) }
}

/// A field that holds a list of texts.
fn texts_field(name: &str, value: &Vec<String>) -> (field: Field)
    ensures
        field.deep_view() == (FieldView {
            name: name@,
            value: FieldValueView::Texts(value.deep_view()),
        }),
{
    Field { name: String::from_str(name), value: FieldValue::Texts(copy_texts(value)) }
}

/// What a tool lists of each mailbox.
pub fn summarize_mailboxes(mailboxes: &Vec<Mailbox>) -> (records: Vec<Vec<Field>>)
    ensures
        records.deep_view() == mailboxes.deep_view().map_values(
            |m: MailboxView| mailbox_summary(m),
        ),
{
    let mut records: Vec<Vec<Field>> = Vec::new();
    let mut i: usize = 0;
    while i < mailboxes.len()
        invariant
            i <= mailboxes.len(),
            records.len() == i,
            forall|k: int|
                0 <= k < i ==> (#[trigger] records[k]).deep_view() == mailbox_summary(
                    mailboxes[k].deep_view(),
                ),
        decreases mailboxes.len() - i,
    {
        let record = vec![
            text_field("address", mailboxes[i].address.as_str()),
            text_field("name", mailboxes[i].name.as_str()),
        ];
        assert(record.deep_view() =~= mailbox_summary(mailboxes[i as int].deep_view()));
        records.push(record);
        i = i + 1;
    }
    assert(records.deep_view() =~= mailboxes.deep_view().map_values(
        |m: MailboxView| mailbox_summary(m),
    ));
    records
}

/// What a tool lists of each alias.
pub fn summarize_aliases(aliases: &Vec<Alias>) -> (records: Vec<Vec<Field>>)
    ensures
        records.deep_view() == aliases.deep_view().map_values(|a: AliasView| alias_summary(a)),
{
    let mut records: Vec<Vec<Field>> = Vec::new();
    let mut i: usize = 0;
    while i < aliases.len()
        invariant
            i <= aliases.len(),
            records.len() == i,
            forall|k: int|
                0 <= k < i ==> (#[trigger] records[k]).deep_view() == alias_summary(
                    aliases[k].deep_view(),
                ),
        decreases aliases.len() - i,
    {
        let record = vec![
            text_field("address", aliases[i].address.as_str()),
            texts_field("destinations", &aliases[i].destinations),
        ];
        assert(record.deep_view() =~= alias_summary(aliases[i as int].deep_view()));
        records.push(record);
        i = i + 1;
    }
    assert(records.deep_view() =~= aliases.deep_view().map_values(|a: AliasView| alias_summary(a)));
    records
}

/// What a tool lists of each rewrite rule.
pub fn summarize_rewrites(rewrites: &Vec<Rewrite>) -> (records: Vec<Vec<Field>>)
    ensures
        records.deep_view() == rewrites.deep_view().map_values(|r: RewriteView| rewrite_summary(r)),
{
    let mut records: Vec<Vec<Field>> = Vec::new();
    let mut i: usize = 0;
    while i < rewrites.len()
        invariant
            i <= rewrites.len(),
            records.len() == i,
            forall|k: int|
                0 <= k < i ==> (#[trigger] records[k]).deep_view() == rewrite_summary(
                    rewrites[k].deep_view(),
                ),
        decreases rewrites.len() - i,
    {
        let record = vec![
            texts_field("destinations", &rewrites[i].destinations),
            text_field("local_part_rule", rewrites[i].local_part_rule.as_str()),
            text_field("name", rewrites[i].name.as_str()),
        ];
        assert(record.deep_view() =~= rewrite_summary(rewrites[i as int].deep_view()));
        records.push(record);
        i = i + 1;
    }
    assert(records.deep_view() =~= rewrites.deep_view().map_values(
        |r: RewriteView| rewrite_summary(r),
    ));
    records
}

/// `serde_json::to_string_pretty` of a list of objects. Each object is a
/// `serde_json::Map` that holds the fields as its members, so what is
/// written depends on the fields alone.
#[verifier::external_body]
fn pretty(records: &Vec<Vec<Field>>) -> (out: String)
    ensures
        out@ == pretty_text(records.deep_view()),
{
    let list: Vec<serde_json::Map<String, serde_json::Value>> = records
        .iter()
        .map(|fields| fields.iter().map(|f| (f.name.clone(), match &f.value {
            FieldValue::Text(s) => serde_json::Value::from(s.as_str()),
            FieldValue::Flag(b) => serde_json::Value::from(*b),
            FieldValue::Number(n) => serde_json::Value::from(*n),
            FieldValue::Texts(l) => serde_json::Value::from(l.clone()),
        })).collect())
        .collect();
    serde_json::to_string_pretty(&list).unwrap_or_default()
}

/// The error reply for a failure: its one-line description.
pub fn failure(error: &Error) -> (reply: Reply)
    ensures
        reply@ == ReplyView::Failure(error@.description()),
{
    Reply::Failure(error.to_string())
}

/// The reply to a query, from what the service answered.
pub fn finish(query: Query, response: &Response) -> (reply: Reply)
    ensures
        reply@ == reply_to(query, *response),
{
    match query {
        Query::ListMailboxes => match read_listing::<Mailbox>(response) {
            Ok(mailboxes) => Reply::Text(pretty(&summarize_mailboxes(&mailboxes))),
            Err(e) => failure(&e),
        },
        Query::GetMailbox => match read_record::<Mailbox>(response) {
            Ok(mailbox) => Reply::Mailbox(mailbox),
            Err(e) => failure(&e),
        },
        Query::ListAliases => match read_listing::<Alias>(response) {
            Ok(aliases) => Reply::Text(pretty(&summarize_aliases(&aliases))),
            Err(e) => failure(&e),
        },
        Query::ListRewrites => match read_listing::<Rewrite>(response) {
            Ok(rewrites) => Reply::Text(pretty(&summarize_rewrites(&rewrites))),
            Err(e) => failure(&e),
        },
    }
}

} // verus!
