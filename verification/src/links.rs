use crate::subscriptions::{Node, NodeView};
use crate::text::{
    decimal_u16, lines_of, parse_u16, split_lines, starts_with, str_eq, string_from_utf8,
    strip_leading, trimmed, utf8_text, without_leading,
};
use base64::Engine;
use vstd::prelude::*;
use vstd::string::StringExecFns;
use vstd::utf8::encode_utf8;

verus! {

/// Why a text could not be decoded.
#[derive(Clone, Copy, Debug, PartialEq, Eq, Structural)]
pub enum DecodeError {
    /// The text is base64 in neither alphabet.
    NotBase64,
    /// The decoded bytes are no UTF-8.
    NotUtf8,
}

/// The value of one member of a JSON object, as far as a link's document
/// is read.
#[derive(Debug)]
pub enum JsonField {
    /// A JSON string.
    Text(String),
    /// A JSON number; its value where it is a whole number that is not
    /// negative and fits 64 bits.
    Number(Option<u64>),
    /// Any other JSON value.
    Other,
}

pub enum JsonFieldView {
    Text(Seq<char>),
    Number(Option<u64>),
    Other,
}

impl DeepView for JsonField {
    type V = JsonFieldView;

    open spec fn deep_view(&self) -> JsonFieldView {
        match self {
            JsonField::Text(text) => JsonFieldView::Text(text@),
            JsonField::Number(value) => JsonFieldView::Number(*value),
            JsonField::Other => JsonFieldView::Other,
        }
    }
}

impl View for JsonField {
    type V = JsonFieldView;

    open spec fn view(&self) -> JsonFieldView {
        self.deep_view()
    }
}

/// The fields of a vmess link's JSON document that a node is made from.
#[derive(Debug)]
pub struct VmessJson {
    /// Display name.
    pub ps: String,
    /// Server address.
    pub add: String,
    pub port: VmessPort,
    /// User id.
    pub id: String,
}

/// The port of a vmess link, which the document gives as a number or as a
/// string.
#[derive(Debug)]
pub enum VmessPort {
    /// A JSON number; its value where it is a whole number that is not
    /// negative and fits 64 bits.
    Number(Option<u64>),
    /// A JSON string.
    Text(String),
    /// Any other JSON value.
    Other,
}

pub enum VmessPortView {
    Number(Option<u64>),
    Text(Seq<char>),
    Other,
}

pub struct VmessJsonView {
    pub ps: Seq<char>,
    pub add: Seq<char>,
    pub port: VmessPortView,
    pub id: Seq<char>,
}

impl DeepView for VmessPort {
    type V = VmessPortView;

    open spec fn deep_view(&self) -> VmessPortView {
        match self {
            VmessPort::Number(value) => VmessPortView::Number(*value),
            VmessPort::Text(text) => VmessPortView::Text(text@),
            VmessPort::Other => VmessPortView::Other,
        }
    }
}

impl View for VmessPort {
    type V = VmessPortView;

    open spec fn view(&self) -> VmessPortView {
        self.deep_view()
    }
}

impl DeepView for VmessJson {
    type V = VmessJsonView;

    open spec fn deep_view(&self) -> VmessJsonView {
        VmessJsonView { ps: self.ps@, add: self.add@, port: self.port@, id: self.id@ }
    }
}

impl View for VmessJson {
    type V = VmessJsonView;

    open spec fn view(&self) -> VmessJsonView {
        self.deep_view()
    }
}

/// The parts of a URL that a trojan node is made from.
#[derive(Debug)]
pub struct UrlParts {
    pub host: Option<String>,
    pub port: Option<u16>,
    pub username: String,
    pub fragment: Option<String>,
    /// The pairs of the query, decoded, in the order of the URL.
    pub query: Vec<(String, String)>,
}

pub struct UrlPartsView {
    pub host: Option<Seq<char>>,
    pub port: Option<u16>,
    pub username: Seq<char>,
    pub fragment: Option<Seq<char>>,
    pub query: Seq<(Seq<char>, Seq<char>)>,
}

impl DeepView for UrlParts {
    type V = UrlPartsView;

    open spec fn deep_view(&self) -> UrlPartsView {
        UrlPartsView {
            host: self.host.deep_view(),
            port: self.port,
            username: self.username@,
            fragment: self.fragment.deep_view(),
            query: self.query.deep_view(),
        }
    }
}

impl View for UrlParts {
    type V = UrlPartsView;

    open spec fn view(&self) -> UrlPartsView {
        self.deep_view()
    }
}

/// What the standard base64 alphabet, with padding required, decodes `text` to.
pub uninterp spec fn standard_base64(text: Seq<char>) -> Option<Seq<u8>>;

/// What the URL-safe base64 alphabet, with padding required, decodes `text` to.
pub uninterp spec fn url_safe_base64(text: Seq<char>) -> Option<Seq<u8>>;

/// What `text` is once its percent escapes are resolved and the result is
/// read as UTF-8.
pub uninterp spec fn percent_decoded(text: Seq<char>) -> Option<Seq<char>>;

/// The members of the JSON object that `text` writes, each key once, where
/// it writes an object.
pub uninterp spec fn json_members(text: Seq<char>) -> Option<Seq<(Seq<char>, JsonFieldView)>>;

/// The parts of the absolute URL that `link` writes, where it writes one.
pub uninterp spec fn url_parts(link: Seq<char>) -> Option<UrlPartsView>;

/// `decode` of base64's `STANDARD` engine. Its result is a function of the
/// text alone, which [`standard_base64`] names.
#[verifier::external_body]
fn decode_standard(text: &str) -> (bytes: Option<Vec<u8>>)
    ensures
        match bytes {
            Some(bytes) => standard_base64(text@) == Some(bytes@),
            None => standard_base64(text@) is None,
        },
{
    base64::engine::general_purpose::STANDARD.decode(text).ok()
}

/// `decode` of base64's `URL_SAFE` engine. Its result is a function of the
/// text alone, which [`url_safe_base64`] names.
#[verifier::external_body]
fn decode_url_safe(text: &str) -> (bytes: Option<Vec<u8>>)
    ensures
        match bytes {
            Some(bytes) => url_safe_base64(text@) == Some(bytes@),
            None => url_safe_base64(text@) is None,
        },
{
    base64::engine::general_purpose::URL_SAFE.decode(text).ok()
}

/// `urlencoding::decode`, with the result copied into a string of its own.
/// Its result is a function of the text alone, which [`percent_decoded`]
/// names.
#[verifier::external_body]
fn percent_decode(text: &str) -> (decoded: Option<String>)
    ensures
        decoded.deep_view() == percent_decoded(text@),
{
    urlencoding::decode(text).ok().map(|decoded| decoded.into_owned())
}

/// `serde_json::from_str` into a `serde_json::Value`. For an object it
/// gives the members, each value by its kind; for any other document, and
/// for a text that is no JSON, nothing. The result is a function of the text
/// alone, which [`json_members`] names.
#[verifier::external_body]
fn read_json_members(text: &str) -> (members: Option<Vec<(String, JsonField)>>)
    ensures
        members.deep_view() == json_members(text@),
{
    let value: serde_json::Value = serde_json::from_str(text).ok()?;
    let serde_json::Value::Object(map) = value else { return None };
    let field = |value| match value {
        serde_json::Value::String(text) => JsonField::Text(text),
        serde_json::Value::Number(number) => JsonField::Number(number.as_u64()),
        _ => JsonField::Other,
    };
    Some(map.into_iter().map(|(key, value)| (key, field(value))).collect())
}

/// `url::Url::parse`, and from the URL it gives its host, port, user name,
/// fragment and query pairs. The result is a function of the link alone,
/// which [`url_parts`] names.
#[verifier::external_body]
fn split_url(link: &str) -> (parts: Option<UrlParts>)
    ensures
        parts.deep_view() == url_parts(link@),
{
    let url = url::Url::parse(link).ok()?;
    Some(UrlParts {
        host: url.host_str().map(|host| host.to_string()),
        port: url.port(),
        username: url.username().to_string(),
        fragment: url.fragment().map(|fragment| fragment.to_string()),
        query: url.query_pairs().map(|(key, value)| (key.into_owned(), value.into_owned())).collect(),
    })
}

/// `uuid::Uuid::new_v4`, written as text. The identifier is random:
/// nothing is claimed of it.
#[verifier::external_body]
fn fresh_node_id() -> (id: String) {
    uuid::Uuid::new_v4().to_string()
}

/// How many padding signs a base64 text of `length` bytes lacks.
pub open spec fn padding_for(length: nat) -> nat {
    ((4 - length % 4) % 4) as nat
}

/// `text` without the white space at its ends, filled up with `=` to a
/// number of bytes that four divides.
pub open spec fn padded_text(text: Seq<char>) -> Seq<char> {
    let body = trimmed(text);
    body + Seq::new(padding_for(encode_utf8(body).len()), |i: int| '=')
}

/// The text that `input` encodes in base64: its padded form is decoded with
/// the standard alphabet or, where that fails, with the URL-safe one, and
/// the bytes are read as UTF-8.
pub open spec fn decoded_text(input: Seq<char>) -> Result<Seq<char>, DecodeError> {
    let padded = padded_text(input);
    text_of_decoded(
        match standard_base64(padded) {
            Some(bytes) => Some(bytes),
            None => url_safe_base64(padded),
        },
    )
}

/// The text that decoded bytes stand for: without bytes the input was no
/// base64, and bytes that are no UTF-8 are no text.
pub open spec fn text_of_decoded(bytes: Option<Seq<u8>>) -> Result<Seq<char>, DecodeError> {
    match bytes {
        None => Err(DecodeError::NotBase64),
        Some(bytes) => match utf8_text(bytes) {
            Some(text) => Ok(text),
            None => Err(DecodeError::NotUtf8),
        },
    }
}

/// The view of bytes that a decoder gave, if it gave any.
pub open spec fn decoded_view(bytes: Option<Vec<u8>>) -> Option<Seq<u8>> {
    match bytes {
        Some(bytes) => Some(bytes@),
        None => None,
    }
}

/// Trims a base64 text and restores the padding that it lacks.
pub fn fix_padding(input: &str) -> (padded: String)
    ensures
        padded@ == padded_text(input@),
{
    let body = input.trim();
    let length = body.as_bytes().len();
    let missing: usize = (4 - length % 4) % 4;
    let mut padded = body.to_string();
    let mut added: usize = 0;
    while added < missing
        invariant
            added <= missing,
            padded@ == body@ + Seq::new(added as nat, |i: int| '='),
        decreases missing - added,
    {
        proof {
            reveal_strlit("=");
            assert(body@ + Seq::new(added as nat, |i: int| '=') + "="@ =~= body@ + Seq::new(
                (added + 1) as nat,
                |i: int| '=',
            ));
        }
        padded.append("=");
        added += 1;
    }
    padded
}

/// Reads what a base64 decoder gave as a text.
pub fn read_decoded(bytes: Option<Vec<u8>>) -> (outcome: Result<String, DecodeError>)
    ensures
        decoding_view(outcome) == text_of_decoded(decoded_view(bytes)),
{
    match bytes {
        None => Err(DecodeError::NotBase64),
        Some(bytes) => match string_from_utf8(bytes) {
            Some(text) => Ok(text),
            None => Err(DecodeError::NotUtf8),
        },
    }
}

/// The model of a decoding result.
pub open spec fn decoding_view(outcome: Result<String, DecodeError>) -> Result<
    Seq<char>,
    DecodeError,
> {
    match outcome {
        Ok(text) => Ok(text@),
        Err(error) => Err(error),
    }
}

/// Decodes a base64 text, padded or not, in the standard or the URL-safe
/// alphabet, to the text it encodes.
pub fn decode_base64(input: &str) -> (outcome: Result<String, DecodeError>)
    ensures
        decoding_view(outcome) == decoded_text(input@),
{
    let padded = fix_padding(input);
    let bytes = match decode_standard(padded.as_str()) {
        Some(bytes) => Some(bytes),
        None => decode_url_safe(padded.as_str()),
    };
    read_decoded(bytes)
}

/// The value of the first of `members` with the key `key`.
pub open spec fn member(members: Seq<(Seq<char>, JsonFieldView)>, key: Seq<char>) -> Option<
    JsonFieldView,
>
    decreases members.len(),
{
    if members.len() == 0 {
        None
    } else if members[0].0 == key {
        Some(members[0].1)
    } else {
        member(members.drop_first(), key)
    }
}

/// The text of the member `key`, where there is one and it is a string.
pub open spec fn text_member(members: Seq<(Seq<char>, JsonFieldView)>, key: Seq<char>) -> Option<
    Seq<char>,
> {
    match member(members, key) {
        Some(JsonFieldView::Text(text)) => Some(text),
        _ => None,
    }
}

/// The port as a member of any kind gives it.
pub open spec fn port_of_field(field: JsonFieldView) -> VmessPortView {
    match field {
        JsonFieldView::Number(value) => VmessPortView::Number(value),
        JsonFieldView::Text(text) => VmessPortView::Text(text),
        JsonFieldView::Other => VmessPortView::Other,
    }
}

/// The fields of a vmess document among the members of its object. The
/// document has to hold `ps`, `add` and `id` as strings and `port` as a
/// value of any kind; other members are passed over. A document that is no
/// object has no members and so gives no fields.
pub open spec fn vmess_fields(members: Seq<(Seq<char>, JsonFieldView)>) -> Option<VmessJsonView> {
    match (
        text_member(members, "ps"@),
        text_member(members, "add"@),
        member(members, "port"@),
        text_member(members, "id"@),
    ) {
        (Some(ps), Some(add), Some(port), Some(id)) => Some(
            VmessJsonView { ps, add, port: port_of_field(port), id },
        ),
        _ => None,
    }
}

fn find_member<'a>(members: &'a Vec<(String, JsonField)>, key: &str) -> (found: Option<
    &'a JsonField,
>)
    ensures
        match found {
            Some(field) => member(members.deep_view(), key@) == Some(field@),
            None => member(members.deep_view(), key@) is None,
        },
{
    let ghost all = members.deep_view();
    assert(all.skip(0) =~= all);
    let mut i: usize = 0;
    while i < members.len()
        invariant
            i <= members.len(),
            all == members.deep_view(),
            member(all, key@) == member(all.skip(i as int), key@),
        decreases members.len() - i,
    {
        proof {
            let rest = all.skip(i as int);
            assert(rest[0] == members@[i as int].deep_view());
            assert(rest.drop_first() =~= all.skip(i + 1));
        }
        if str_eq(members[i].0.as_str(), key) {
            return Some(&members[i].1);
        }
        i += 1;
    }
    assert(all.skip(i as int).len() == 0);
    None
}

fn find_text_member(members: &Vec<(String, JsonField)>, key: &str) -> (found: Option<String>)
    ensures
        found.deep_view() == text_member(members.deep_view(), key@),
{
    match find_member(members, key) {
        Some(JsonField::Text(text)) => Some(text.clone()),
        _ => None,
    }
}

/// Picks the fields of a vmess document from the members of its object.
pub fn read_vmess_fields(members: &Vec<(String, JsonField)>) -> (fields: Option<VmessJson>)
    ensures
        fields.deep_view() == vmess_fields(members.deep_view()),
{
    let ps = find_text_member(members, "ps");
    let add = find_text_member(members, "add");
    let id = find_text_member(members, "id");
    let port = match find_member(members, "port") {
        Some(JsonField::Number(value)) => Some(VmessPort::Number(*value)),
        Some(JsonField::Text(text)) => Some(VmessPort::Text(text.clone())),
        Some(JsonField::Other) => Some(VmessPort::Other),
        None => None,
    };
    match (ps, add, port, id) {
        (Some(ps), Some(add), Some(port), Some(id)) => Some(VmessJson { ps, add, port, id }),
        _ => None,
    }
}

/// The port that a vmess document gives: a number is cut to its low 16
/// bits, a string is read as a decimal number.
pub open spec fn vmess_port(port: VmessPortView) -> Option<u16> {
    match port {
        VmessPortView::Number(Some(value)) => Some((value % 0x1_0000) as u16),
        VmessPortView::Number(None) => None,
        VmessPortView::Text(text) => decimal_u16(text),
        VmessPortView::Other => None,
    }
}

/// The node that the fields of a vmess document describe, under the
/// identifier `id`, where they give a port.
pub open spec fn vmess_node(fields: VmessJsonView, id: Seq<char>) -> Option<NodeView> {
    match vmess_port(fields.port) {
        None => None,
        Some(port) => Some(
            NodeView {
                id,
                protocol: "vmess"@,
                name: fields.ps,
                address: fields.add,
                port,
                uuid: Some(fields.id),
                password: None,
                cipher: None,
                sni: None,
                allow_insecure: false,
            },
        ),
    }
}

/// The fields of the document that a vmess link carries: what follows the
/// scheme is base64 for a JSON text.
pub open spec fn vmess_link_fields(link: Seq<char>) -> Option<VmessJsonView> {
    match decoded_text(without_leading(link, "vmess://"@)) {
        Ok(text) => match json_members(text) {
            Some(members) => vmess_fields(members),
            None => None,
        },
        Err(_) => None,
    }
}

/// The node that a vmess link describes, under the identifier `id`.
pub open spec fn vmess_link_node(link: Seq<char>, id: Seq<char>) -> Option<NodeView> {
    match vmess_link_fields(link) {
        Some(fields) => vmess_node(fields, id),
        None => None,
    }
}

fn read_vmess_port(port: &VmessPort) -> (value: Option<u16>)
    ensures
        value == vmess_port(port@),
{
    match port {
        VmessPort::Number(Some(value)) => Some((*value % 0x1_0000) as u16),
        VmessPort::Number(None) => None,
        VmessPort::Text(text) => parse_u16(text.as_str()),
        VmessPort::Other => None,
    }
}

/// Makes the node that the fields of a vmess document describe.
pub fn node_from_vmess(fields: VmessJson, id: String) -> (node: Option<Node>)
    ensures
        node.deep_view() == vmess_node(fields@, id@),
{
    let port = match read_vmess_port(&fields.port) {
        Some(port) => port,
        None => {
            return None;
        },
    };
    Some(
        Node {
            id,
            protocol: "vmess".to_string(),
            name: fields.ps,
            address: fields.add,
            port,
            uuid: Some(fields.id),
            password: None,
            cipher: None,
            sni: None,
            allow_insecure: false,
        },
    )
}

/// Reads a vmess link. The node gets a fresh random identifier; everything
/// else of it is decided by the link.
pub fn parse_vmess(link: &str) -> (node: Option<Node>)
    ensures
        match node {
            Some(node) => vmess_link_node(link@, node@.id) == Some(node@),
            None => forall|id: Seq<char>| vmess_link_node(link@, id) is None,
        },
{
    proof {
        reveal_strlit("vmess://");
    }
    let payload = strip_leading(link, "vmess://");
    let text = match decode_base64(payload) {
        Ok(text) => text,
        Err(_) => {
            return None;
        },
    };
    let members = match read_json_members(text.as_str()) {
        Some(members) => members,
        None => {
            return None;
        },
    };
    let fields = match read_vmess_fields(&members) {
        Some(fields) => fields,
        None => {
            return None;
        },
    };
    node_from_vmess(fields, fresh_node_id())
}

/// Whether a query key names the TLS server name.
pub open spec fn names_sni(key: Seq<char>) -> bool {
    key == "sni"@ || key == "peer"@
}

/// The TLS server name that a query gives: the value of the last pair
/// whose key is `sni` or `peer`.
pub open spec fn query_sni(pairs: Seq<(Seq<char>, Seq<char>)>) -> Option<Seq<char>>
    decreases pairs.len(),
{
    if pairs.len() == 0 {
        None
    } else if names_sni(pairs.last().0) {
        Some(pairs.last().1)
    } else {
        query_sni(pairs.drop_last())
    }
}

/// Whether a query holds the pair `allowInsecure=1`.
pub open spec fn query_allows_insecure(pairs: Seq<(Seq<char>, Seq<char>)>) -> bool {
    exists|i: int|
        0 <= i < pairs.len() && (#[trigger] pairs[i]).0 == "allowInsecure"@ && pairs[i].1 == "1"@
}

/// The display name of a trojan node: the fragment of its URL with the
/// percent escapes resolved, or as it stands where they do not resolve to
/// a text. A URL without a fragment gives a fixed name.
pub open spec fn trojan_name(fragment: Option<Seq<char>>) -> Seq<char> {
    let raw = raw_trojan_name(fragment);
    chosen_name(raw, percent_decoded(raw))
}

/// The name of a trojan node as its URL writes it: the fragment, or a
/// fixed name for a URL without one.
pub open spec fn raw_trojan_name(fragment: Option<Seq<char>>) -> Seq<char> {
    match fragment {
        Some(fragment) => fragment,
        None => "Unknown Trojan"@,
    }
}

/// The decoded name where the decoder gave one, the raw name otherwise.
pub open spec fn chosen_name(raw: Seq<char>, decoded: Option<Seq<char>>) -> Seq<char> {
    match decoded {
        Some(name) => name,
        None => raw,
    }
}

/// The node that the parts of a trojan URL describe, under the identifier
/// `id`, where the URL has a host. The user name of the URL is the
/// password, and a URL without a port means port 443.
pub open spec fn trojan_node(parts: UrlPartsView, id: Seq<char>) -> Option<NodeView> {
    match parts.host {
        None => None,
        Some(host) => Some(
            NodeView {
                id,
                protocol: "trojan"@,
                name: trojan_name(parts.fragment),
                address: host,
                port: match parts.port {
                    Some(port) => port,
                    None => 443,
                },
                uuid: None,
                password: Some(parts.username),
                cipher: None,
                sni: query_sni(parts.query),
                allow_insecure: query_allows_insecure(parts.query),
            },
        ),
    }
}

/// The node that a trojan link describes, under the identifier `id`.
pub open spec fn trojan_link_node(link: Seq<char>, id: Seq<char>) -> Option<NodeView> {
    match url_parts(link) {
        Some(parts) => trojan_node(parts, id),
        None => None,
    }
}

/// The name of a trojan node as its URL writes it.
pub fn read_raw_trojan_name(fragment: &Option<String>) -> (raw: String)
    ensures
        raw@ == raw_trojan_name(fragment.deep_view()),
{
    match fragment {
        Some(fragment) => fragment.clone(),
        None => "Unknown Trojan".to_string(),
    }
}

/// Chooses between the raw name and what the decoder made of it.
pub fn choose_name(raw: String, decoded: Option<String>) -> (name: String)
    ensures
        name@ == chosen_name(raw@, decoded.deep_view()),
{
    match decoded {
        Some(name) => name,
        None => raw,
    }
}

fn read_trojan_name(fragment: &Option<String>) -> (name: String)
    ensures
        name@ == trojan_name(fragment.deep_view()),
{
    let raw = read_raw_trojan_name(fragment);
    let decoded = percent_decode(raw.as_str());
    choose_name(raw, decoded)
}

fn read_query_sni(pairs: &Vec<(String, String)>) -> (sni: Option<String>)
    ensures
        sni.deep_view() == query_sni(pairs.deep_view()),
{
    let ghost all = pairs.deep_view();
    let mut left: usize = pairs.len();
    assert(all.take(left as int) =~= all);
    while left > 0
        invariant
            left <= pairs.len(),
            all == pairs.deep_view(),
            query_sni(all) == query_sni(all.take(left as int)),
        decreases left,
    {
        proof {
            let head = all.take(left as int);
            assert(head.last() == pairs@[left - 1].deep_view());
            assert(head.drop_last() =~= all.take(left - 1));
        }
        let pair = &pairs[left - 1];
        if str_eq(pair.0.as_str(), "sni") || str_eq(pair.0.as_str(), "peer") {
            return Some(pair.1.clone());
        }
        left -= 1;
    }
    None
}

fn read_query_allows_insecure(pairs: &Vec<(String, String)>) -> (allowed: bool)
    ensures
        allowed == query_allows_insecure(pairs.deep_view()),
{
    let ghost all = pairs.deep_view();
    let mut i: usize = 0;
    while i < pairs.len()
        invariant
            i <= pairs.len(),
            all == pairs.deep_view(),
            forall|k: int| 0 <= k < i ==> !((#[trigger] all[k]).0 == "allowInsecure"@ && all[k].1 == "1"@),
        decreases pairs.len() - i,
    {
        let pair = &pairs[i];
        if str_eq(pair.0.as_str(), "allowInsecure") && str_eq(pair.1.as_str(), "1") {
            assert(all[i as int].0 == "allowInsecure"@ && all[i as int].1 == "1"@);
            return true;
        }
        i += 1;
    }
    false
}

/// Makes the node that the parts of a trojan URL describe.
pub fn node_from_trojan(parts: UrlParts, id: String) -> (node: Option<Node>)
    ensures
        node.deep_view() == trojan_node(parts@, id@),
{
    let name = read_trojan_name(&parts.fragment);
    let sni = read_query_sni(&parts.query);
    let allow_insecure = read_query_allows_insecure(&parts.query);
    let port = match parts.port {
        Some(port) => port,
        None => 443,
    };
    match parts.host {
        None => None,
        Some(host) => Some(
            Node {
                id,
                protocol: "trojan".to_string(),
                name,
                address: host,
                port,
                uuid: None,
                password: Some(parts.username),
                cipher: None,
                sni,
                allow_insecure,
            },
        ),
    }
}

/// Reads a trojan link. The node gets a fresh random identifier;
/// everything else of it is decided by the link.
pub fn parse_trojan(link: &str) -> (node: Option<Node>)
    ensures
        match node {
            Some(node) => trojan_link_node(link@, node@.id) == Some(node@),
            None => forall|id: Seq<char>| trojan_link_node(link@, id) is None,
        },
{
    match split_url(link) {
        Some(parts) => node_from_trojan(parts, fresh_node_id()),
        None => None,
    }
}

/// The node that a link describes, under the identifier `id`. Only vmess
/// and trojan links describe one.
pub open spec fn link_node(link: Seq<char>, id: Seq<char>) -> Option<NodeView> {
    if "vmess://"@.is_prefix_of(link) {
        vmess_link_node(link, id)
    } else if "trojan://"@.is_prefix_of(link) {
        trojan_link_node(link, id)
    } else {
        None
    }
}

/// `node` without its identifier.
pub open spec fn anonymous(node: NodeView) -> NodeView {
    NodeView { id: Seq::empty(), ..node }
}

/// Each of `nodes` without its identifier.
pub open spec fn anonymous_all(nodes: Seq<NodeView>) -> Seq<NodeView> {
    Seq::new(nodes.len(), |i: int| anonymous(nodes[i]))
}

/// The text that a subscription's answer stands for: what it encodes in
/// base64, or itself where it is no base64 for a text.
pub open spec fn body_text(body: Seq<char>) -> Seq<char> {
    match decoded_text(body) {
        Ok(text) => text,
        Err(_) => body,
    }
}

/// The nodes, without identifiers, that the given lines describe, in the
/// order of the lines. A line is read without the white space at its ends,
/// and a line that describes no node is passed over.
pub open spec fn line_nodes(lines: Seq<Seq<char>>) -> Seq<NodeView>
    decreases lines.len(),
{
    if lines.len() == 0 {
        seq![]
    } else {
        let before = line_nodes(lines.drop_last());
        match link_node(trimmed(lines.last()), Seq::empty()) {
            Some(node) => before.push(node),
            None => before,
        }
    }
}

/// The nodes, without identifiers, that a subscription's answer describes.
pub open spec fn body_nodes(body: Seq<char>) -> Seq<NodeView> {
    line_nodes(lines_of(body_text(body)))
}

/// Reads one line of a subscription. The node gets a fresh random
/// identifier; everything else of it is decided by the line.
pub fn parse_link(line: &str) -> (node: Option<Node>)
    ensures
        match node {
            Some(node) => link_node(trimmed(line@), Seq::empty()) == Some(anonymous(node@)),
            None => link_node(trimmed(line@), Seq::empty()) is None,
        },
{
    let link = line.trim();
    if starts_with(link, "vmess://") {
        parse_vmess(link)
    } else if starts_with(link, "trojan://") {
        parse_trojan(link)
    } else {
        None
    }
}

/// Reads the answer of a subscription: the nodes that its lines describe,
/// in their order, each under a fresh random identifier.
pub fn parse_subscription_body(body: &str) -> (nodes: Vec<Node>)
    ensures
        anonymous_all(nodes.deep_view()) == body_nodes(body@),
{
    let text = match decode_base64(body) {
        Ok(text) => text,
        Err(_) => body.to_string(),
    };
    let lines = split_lines(text.as_str());
    let ghost all = lines.deep_view();
    let mut nodes: Vec<Node> = Vec::new();
    let mut i: usize = 0;
    assert(anonymous_all(nodes.deep_view()) =~= line_nodes(all.take(0)));
    while i < lines.len()
        invariant
            i <= lines.len(),
            all == lines.deep_view(),
            anonymous_all(nodes.deep_view()) == line_nodes(all.take(i as int)),
        decreases lines.len() - i,
    {
        proof {
            let head = all.take(i + 1);
            assert(head.last() == lines@[i as int]@);
            assert(head.drop_last() =~= all.take(i as int));
        }
        let ghost before = nodes.deep_view();
        match parse_link(lines[i].as_str()) {
            Some(node) => {
                nodes.push(node);
                assert(anonymous_all(nodes.deep_view()) =~= anonymous_all(before).push(
                    anonymous(node@),
                ));
            },
            None => {},
        }
        i += 1;
    }
    assert(all.take(lines.len() as int) =~= all);
    nodes
}

} // verus!
