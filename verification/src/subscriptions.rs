use crate::links::{anonymous_all, body_nodes, parse_subscription_body};
use crate::text::str_eq;
use vstd::prelude::*;

verus! {

/// One remote proxy endpoint, as read from a subscription link.
///
/// `protocol` is `"vmess"`, `"trojan"` or `"ss"`; the optional fields hold the
/// credentials of the protocol that uses them.
#[derive(Debug)]
pub struct Node {
    pub id: String,
    pub protocol: String,
    pub name: String,
    pub address: String,
    pub port: u16,
    /// User id of a vmess endpoint.
    pub uuid: Option<String>,
    /// Password of a trojan or shadowsocks endpoint.
    pub password: Option<String>,
    /// Cipher of a shadowsocks endpoint.
    pub cipher: Option<String>,
    /// TLS server name of a trojan endpoint.
    pub sni: Option<String>,
    pub allow_insecure: bool,
}

pub struct NodeView {
    pub id: Seq<char>,
    pub protocol: Seq<char>,
    pub name: Seq<char>,
    pub address: Seq<char>,
    pub port: u16,
    pub uuid: Option<Seq<char>>,
    pub password: Option<Seq<char>>,
    pub cipher: Option<Seq<char>>,
    pub sni: Option<Seq<char>>,
    pub allow_insecure: bool,
}

impl DeepView for Node {
    type V = NodeView;

    open spec fn deep_view(&self) -> NodeView {
        NodeView {
            id: self.id@,
            protocol: self.protocol@,
            name: self.name@,
            address: self.address@,
            port: self.port,
            uuid: self.uuid.deep_view(),
            password: self.password.deep_view(),
            cipher: self.cipher.deep_view(),
            sni: self.sni.deep_view(),
            allow_insecure: self.allow_insecure,
        }
    }
}

impl View for Node {
    type V = NodeView;

    open spec fn view(&self) -> NodeView {
        self.deep_view()
    }
}

impl Clone for Node {
    fn clone(&self) -> (copy: Self)
        ensures
            copy@ == self@,
    {
        Node {
            id: self.id.clone(),
            protocol: self.protocol.clone(),
            name: self.name.clone(),
            address: self.address.clone(),
            port: self.port,
            uuid: self.uuid.clone(),
            password: self.password.clone(),
            cipher: self.cipher.clone(),
            sni: self.sni.clone(),
            allow_insecure: self.allow_insecure,
        }
    }
}

/// A subscription source with the nodes read from it last.
///
/// `status` is `"new"` until the first update, then `"active"` or `"error"`.
#[derive(Debug)]
pub struct Subscription {
    pub url: String,
    pub name: String,
    pub status: String,
    pub last_updated: String,
    /// A disabled subscription is passed over by updates.
    pub enabled: bool,
    pub nodes: Vec<Node>,
}

pub struct SubscriptionView {
    pub url: Seq<char>,
    pub name: Seq<char>,
    pub status: Seq<char>,
    pub last_updated: Seq<char>,
    pub enabled: bool,
    pub nodes: Seq<NodeView>,
}

impl DeepView for Subscription {
    type V = SubscriptionView;

    open spec fn deep_view(&self) -> SubscriptionView {
        SubscriptionView {
            url: self.url@,
            name: self.name@,
            status: self.status@,
            last_updated: self.last_updated@,
            enabled: self.enabled,
            nodes: self.nodes.deep_view(),
        }
    }
}

impl View for Subscription {
    type V = SubscriptionView;

    open spec fn view(&self) -> SubscriptionView {
        self.deep_view()
    }
}

/// What a subscription is taken to be when its record does not say whether
/// it is enabled.
pub fn default_true() -> (enabled: bool)
    ensures
        enabled,
{
    true
}

fn clone_nodes(nodes: &Vec<Node>) -> (copy: Vec<Node>)
    ensures
        copy.deep_view() == nodes.deep_view(),
{
    let mut copy: Vec<Node> = Vec::new();
    let mut i: usize = 0;
    while i < nodes.len()
        invariant
            i <= nodes.len(),
            copy@.len() == i,
            forall|k: int| 0 <= k < i ==> copy@[k]@ == nodes@[k]@,
        decreases nodes.len() - i,
    {
        copy.push(nodes[i].clone());
        i += 1;
    }
    assert(copy.deep_view() =~= nodes.deep_view());
    copy
}

impl Clone for Subscription {
    fn clone(&self) -> (copy: Self)
        ensures
            copy@ == self@,
    {
        Subscription {
            url: self.url.clone(),
            name: self.name.clone(),
            status: self.status.clone(),
            last_updated: self.last_updated.clone(),
            enabled: self.enabled,
            nodes: clone_nodes(&self.nodes),
        }
    }
}

/// The first of `nodes` whose id is `id`.
pub open spec fn first_with_id(nodes: Seq<NodeView>, id: Seq<char>) -> Option<NodeView>
    decreases nodes.len(),
{
    if nodes.len() == 0 {
        None
    } else if nodes[0].id == id {
        Some(nodes[0])
    } else {
        first_with_id(nodes.drop_first(), id)
    }
}

/// The first node with the id `id`, going through the subscriptions in
/// their order and through each one's nodes in theirs.
pub open spec fn find_node(subscriptions: Seq<SubscriptionView>, id: Seq<char>) -> Option<
    NodeView,
>
    decreases subscriptions.len(),
{
    if subscriptions.len() == 0 {
        None
    } else {
        match first_with_id(subscriptions[0].nodes, id) {
            Some(node) => Some(node),
            None => find_node(subscriptions.drop_first(), id),
        }
    }
}

fn first_node_with_id(nodes: &Vec<Node>, id: &str) -> (found: Option<Node>)
    ensures
        found.deep_view() == first_with_id(nodes.deep_view(), id@),
{
    let ghost all = nodes.deep_view();
    assert(all.skip(0) =~= all);
    let mut i: usize = 0;
    while i < nodes.len()
        invariant
            i <= nodes.len(),
            all == nodes.deep_view(),
            first_with_id(all, id@) == first_with_id(all.skip(i as int), id@),
        decreases nodes.len() - i,
    {
        proof {
            let rest = all.skip(i as int);
            assert(rest[0] == nodes@[i as int]@);
            assert(rest.drop_first() =~= all.skip(i + 1));
        }
        if str_eq(nodes[i].id.as_str(), id) {
            return Some(nodes[i].clone());
        }
        i += 1;
    }
    assert(all.skip(i as int).len() == 0);
    None
}

/// Looks a node up by its id among all subscriptions.
pub fn find_node_by_id(subscriptions: &[Subscription], node_id: &str) -> (found: Option<Node>)
    ensures
        found.deep_view() == find_node(subscriptions.deep_view(), node_id@),
{
    let ghost all = subscriptions.deep_view();
    assert(all.skip(0) =~= all);
    let mut i: usize = 0;
    while i < subscriptions.len()
        invariant
            i <= subscriptions.len(),
            all == subscriptions.deep_view(),
            find_node(all, node_id@) == find_node(all.skip(i as int), node_id@),
        decreases subscriptions.len() - i,
    {
        proof {
            let rest = all.skip(i as int);
            assert(rest[0] == subscriptions@[i as int]@);
            assert(rest.drop_first() =~= all.skip(i + 1));
        }
        let found = first_node_with_id(&subscriptions[i].nodes, node_id);
        if found.is_some() {
            return found;
        }
        i += 1;
    }
    assert(all.skip(i as int).len() == 0);
    None
}

/// Why a change to the list of subscriptions was refused.
#[derive(Clone, Copy, Debug, PartialEq, Eq, Structural)]
pub enum StoreError {
    /// A subscription with this address is already in the list.
    AlreadyExists,
    /// No subscription with this address is in the list.
    NotFound,
}

/// Whether one of `subscriptions` has the address `url`.
pub open spec fn has_url(subscriptions: Seq<SubscriptionView>, url: Seq<char>) -> bool {
    exists|i: int| 0 <= i < subscriptions.len() && (#[trigger] subscriptions[i]).url == url
}

/// Place of the first of `subscriptions` with the address `url`, or their
/// number if there is none.
pub open spec fn first_with_url(subscriptions: Seq<SubscriptionView>, url: Seq<char>) -> int
    decreases subscriptions.len(),
{
    if subscriptions.len() == 0 || subscriptions[0].url == url {
        0
    } else {
        1 + first_with_url(subscriptions.drop_first(), url)
    }
}

/// A subscription as it is when it was just added: enabled, never updated,
/// without nodes.
pub open spec fn new_subscription(name: Seq<char>, url: Seq<char>) -> SubscriptionView {
    SubscriptionView {
        url,
        name,
        status: "new"@,
        last_updated: "从未"@,
        enabled: true,
        nodes: Seq::empty(),
    }
}

/// `subscriptions` without those that have the address `url`.
pub open spec fn without_url(subscriptions: Seq<SubscriptionView>, url: Seq<char>) -> Seq<
    SubscriptionView,
>
    decreases subscriptions.len(),
{
    if subscriptions.len() == 0 {
        seq![]
    } else if subscriptions.last().url == url {
        without_url(subscriptions.drop_last(), url)
    } else {
        without_url(subscriptions.drop_last(), url).push(subscriptions.last())
    }
}

fn position_of_url(subscriptions: &Vec<Subscription>, url: &str) -> (place: usize)
    ensures
        place == first_with_url(subscriptions.deep_view(), url@),
        place <= subscriptions.len(),
        place < subscriptions.len() ==> subscriptions.deep_view()[place as int].url == url@,
        forall|k: int| 0 <= k < place ==> (#[trigger] subscriptions.deep_view()[k]).url != url@,
{
    let ghost all = subscriptions.deep_view();
    assert(all.skip(0) =~= all);
    let mut i: usize = 0;
    while i < subscriptions.len()
        invariant
            i <= subscriptions.len(),
            all == subscriptions.deep_view(),
            first_with_url(all, url@) == i + first_with_url(all.skip(i as int), url@),
            forall|k: int| 0 <= k < i ==> (#[trigger] all[k]).url != url@,
        decreases subscriptions.len() - i,
    {
        proof {
            let rest = all.skip(i as int);
            assert(rest[0] == all[i as int]);
            assert(rest.drop_first() =~= all.skip(i + 1));
        }
        if str_eq(subscriptions[i].url.as_str(), url) {
            return i;
        }
        i += 1;
    }
    assert(all.skip(i as int).len() == 0);
    i
}

/// Adds a subscription at the end of the list, unless one with the same
/// address is in it.
pub fn add_subscription(subscriptions: &mut Vec<Subscription>, name: String, url: String) -> (outcome:
    Result<(), StoreError>)
    ensures
        has_url(old(subscriptions).deep_view(), url@) ==> {
            &&& outcome == Err::<(), StoreError>(StoreError::AlreadyExists)
            &&& final(subscriptions).deep_view() == old(subscriptions).deep_view()
        },
        !has_url(old(subscriptions).deep_view(), url@) ==> {
            &&& outcome is Ok
            &&& final(subscriptions).deep_view() == old(subscriptions).deep_view().push(
                new_subscription(name@, url@),
            )
        },
{
    let place = position_of_url(subscriptions, url.as_str());
    if place < subscriptions.len() {
        return Err(StoreError::AlreadyExists);
    }
    let ghost before = subscriptions.deep_view();
    let added = Subscription {
        url,
        name,
        status: "new".to_string(),
        last_updated: "从未".to_string(),
        enabled: true,
        nodes: Vec::new(),
    };
    assert(added.nodes.deep_view() =~= Seq::<NodeView>::empty());
    subscriptions.push(added);
    assert(subscriptions.deep_view() =~= before.push(new_subscription(name@, url@)));
    Ok(())
}

/// Switches the first subscription with the address `url` on or off.
pub fn toggle_subscription_enabled(
    subscriptions: &mut Vec<Subscription>,
    url: &str,
    enabled: bool,
) -> (outcome: Result<(), StoreError>)
    ensures
        !has_url(old(subscriptions).deep_view(), url@) ==> {
            &&& outcome == Err::<(), StoreError>(StoreError::NotFound)
            &&& final(subscriptions).deep_view() == old(subscriptions).deep_view()
        },
        has_url(old(subscriptions).deep_view(), url@) ==> {
            let place = first_with_url(old(subscriptions).deep_view(), url@);
            &&& outcome is Ok
            &&& 0 <= place < old(subscriptions).len()
            &&& old(subscriptions).deep_view()[place].url == url@
            &&& final(subscriptions).deep_view() == old(subscriptions).deep_view().update(
                place,
                SubscriptionView { enabled, ..old(subscriptions).deep_view()[place] },
            )
        },
{
    let place = position_of_url(subscriptions, url);
    if place >= subscriptions.len() {
        return Err(StoreError::NotFound);
    }
    let ghost before = subscriptions.deep_view();
    let mut changed = subscriptions[place].clone();
    changed.enabled = enabled;
    subscriptions.set(place, changed);
    assert(subscriptions.deep_view() =~= before.update(
        place as int,
        SubscriptionView { enabled, ..before[place as int] },
    ));
    Ok(())
}

/// Takes every subscription with the address `url` out of the list.
pub fn delete_subscription(subscriptions: &mut Vec<Subscription>, url: &str)
    ensures
        final(subscriptions).deep_view() == without_url(old(subscriptions).deep_view(), url@),
{
    let ghost all = subscriptions.deep_view();
    let ghost mut seen: int = 0;
    let mut i: usize = 0;
    assert(subscriptions.deep_view().take(0) =~= without_url(all.take(0), url@));
    assert(subscriptions.deep_view().skip(0) =~= all.skip(0));
    while i < subscriptions.len()
        invariant
            i <= subscriptions.len(),
            0 <= seen <= all.len(),
            subscriptions.len() - i == all.len() - seen,
            subscriptions.deep_view().take(i as int) == without_url(all.take(seen), url@),
            subscriptions.deep_view().skip(i as int) == all.skip(seen),
        decreases subscriptions.len() - i,
    {
        let ghost now = subscriptions.deep_view();
        proof {
            assert(now[i as int] == now.skip(i as int)[0]);
            assert(all.skip(seen)[0] == all[seen]);
            let head = all.take(seen + 1);
            assert(head.last() == all[seen]);
            assert(head.drop_last() =~= all.take(seen));
        }
        if str_eq(subscriptions[i].url.as_str(), url) {
            let _ = subscriptions.remove(i);
            proof {
                let after = subscriptions.deep_view();
                assert(after.take(i as int) =~= now.take(i as int));
                assert(after.skip(i as int) =~= now.skip(i as int).drop_first());
                assert(all.skip(seen).drop_first() =~= all.skip(seen + 1));
                seen = seen + 1;
            }
        } else {
            proof {
                assert(now.take(i + 1) =~= now.take(i as int).push(now[i as int]));
                assert(now.skip(i + 1) =~= now.skip(i as int).drop_first());
                assert(all.skip(seen).drop_first() =~= all.skip(seen + 1));
                seen = seen + 1;
            }
            i += 1;
        }
    }
    proof {
        assert(seen == all.len());
        assert(all.take(seen) =~= all);
        assert(subscriptions.deep_view().take(i as int) =~= subscriptions.deep_view());
    }
}

/// `chrono::Local::now`, written as year, month, day, hour and minute. The
/// result depends on the clock and the time zone: nothing is claimed of it.
#[verifier::external_body]
fn local_timestamp() -> (stamp: String) {
    chrono::Local::now().format("%Y-%m-%d %H:%M").to_string()
}

/// The subscription after an update that got `body` as the answer, at the
/// time `now`: it is active, and its nodes are `nodes`.
pub open spec fn updated(
    before: SubscriptionView,
    nodes: Seq<NodeView>,
    now: Seq<char>,
) -> SubscriptionView {
    SubscriptionView { nodes, status: "active"@, last_updated: now, ..before }
}

/// The subscription after an update that got no answer: it is in error and
/// keeps its nodes and the time of its last update.
pub open spec fn failed_update(before: SubscriptionView) -> SubscriptionView {
    SubscriptionView { status: "error"@, ..before }
}

impl Subscription {
    /// Whether an update fetches this subscription: only if it is enabled.
    pub fn wants_update(&self) -> (wanted: bool)
        ensures
            wanted == self@.enabled,
    {
        self.enabled
    }

    /// Records the outcome of fetching this subscription at the time `now`:
    /// the answer's text, or nothing where the fetch failed.
    pub fn record_fetch_at(&mut self, body: Option<&str>, now: String)
        ensures
            match body {
                Some(text) => {
                    &&& final(self)@ == updated(old(self)@, final(self)@.nodes, now@)
                    &&& anonymous_all(final(self)@.nodes) == body_nodes(text@)
                },
                None => final(self)@ == failed_update(old(self)@),
            },
    {
        match body {
            Some(text) => {
                self.nodes = parse_subscription_body(text);
                self.status = "active".to_string();
                self.last_updated = now;
            },
            None => {
                self.status = "error".to_string();
            },
        }
    }

    /// Records the outcome of fetching this subscription now, by the local
    /// clock.
    pub fn record_fetch(&mut self, body: Option<&str>)
        ensures
            match body {
                Some(text) => {
                    &&& final(self)@ == updated(
                        old(self)@,
                        final(self)@.nodes,
                        final(self)@.last_updated,
                    )
                    &&& anonymous_all(final(self)@.nodes) == body_nodes(text@)
                },
                None => final(self)@ == failed_update(old(self)@),
            },
    {
        self.record_fetch_at(body, local_timestamp())
    }
}

/// What a refusal says to the user.
pub open spec fn store_error_text(error: StoreError) -> Seq<char> {
    match error {
        StoreError::AlreadyExists => "订阅源已存在"@,
        StoreError::NotFound => "未找到该订阅"@,
    }
}

impl StoreError {
    pub fn message(&self) -> (text: String)
        ensures
            text@ == store_error_text(*self),
    {
        match self {
            StoreError::AlreadyExists => "订阅源已存在".to_string(),
            StoreError::NotFound => "未找到该订阅".to_string(),
        }
    }
}

/// What is left after a deletion holds no subscription with the deleted
/// address and nothing that was not there before; a list without the
/// address is left as it is.
pub proof fn lemma_without_url(subscriptions: Seq<SubscriptionView>, url: Seq<char>)
    ensures
        !has_url(without_url(subscriptions, url), url),
        without_url(subscriptions, url).len() <= subscriptions.len(),
        forall|i: int|
            0 <= i < without_url(subscriptions, url).len() ==> subscriptions.contains(
                #[trigger] without_url(subscriptions, url)[i],
            ),
        !has_url(subscriptions, url) ==> without_url(subscriptions, url) == subscriptions,
    decreases subscriptions.len(),
{
    if subscriptions.len() > 0 {
        let head = subscriptions.drop_last();
        let kept = without_url(head, url);
        lemma_without_url(head, url);
        let left = without_url(subscriptions, url);
        assert forall|i: int| 0 <= i < left.len() implies subscriptions.contains(
            #[trigger] left[i],
        ) by {
            if i < kept.len() {
                assert(head.contains(kept[i]));
                let k = choose|k: int| 0 <= k < head.len() && head[k] == kept[i];
                assert(subscriptions[k] == kept[i]);
            } else {
                assert(subscriptions[subscriptions.len() - 1] == left[i]);
            }
        }
        if !has_url(subscriptions, url) {
            assert(!has_url(head, url)) by {
                if has_url(head, url) {
                    let k = choose|k: int| 0 <= k < head.len() && (#[trigger] head[k]).url == url;
                    assert(subscriptions[k].url == url);
                }
            }
            assert(subscriptions.last().url != url) by {
                assert(subscriptions[subscriptions.len() - 1] == subscriptions.last());
            }
            assert(left =~= subscriptions);
        }
    }
}

} // verus!
