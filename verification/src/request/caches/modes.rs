//! The configurations of the four cache topologies, and the JSON document
//! that each is created with.

use crate::json::{json_bool, json_doc, json_integer, json_object, json_set, json_string, JsonDoc};
use vstd::prelude::*;
use vstd::string::*;

verus! {

/// The number of locks that a new cache shares among its entries.
pub const DEFAULT_CONCURRENCY_LEVEL: i32 = 1_000;

/// How long a new cache waits for a lock, in milliseconds.
pub const DEFAULT_ACQUIRE_TIMEOUT: i32 = 15_000;

/// How long a new clustered cache waits for the state of the others, in
/// milliseconds.
pub const DEFAULT_STATE_TRANSFER_TIMEOUT: i32 = 60_000;

/// How long a new synchronous cache waits for the other nodes, in
/// milliseconds.
pub const DEFAULT_REMOTE_TIMEOUT: i32 = 17_500;

/// How a cache locks its entries.
#[derive(Eq, PartialEq, Debug)]
pub struct Locking {
    pub concurrency_level: i32,
    pub acquire_timeout: i32,
    pub striping: bool,
}

impl Locking {
    /// The locking that every new cache gets.
    pub open spec fn standard() -> Locking {
        Locking {
            concurrency_level: DEFAULT_CONCURRENCY_LEVEL,
            acquire_timeout: DEFAULT_ACQUIRE_TIMEOUT,
            striping: false,
        }
    }

    pub open spec fn doc(self) -> JsonDoc {
        JsonDoc::Object(
            Map::empty().insert(
                "concurrency-level"@,
                JsonDoc::Integer(self.concurrency_level as int),
            ).insert("acquire-timeout"@, JsonDoc::Integer(self.acquire_timeout as int)).insert(
                "striping"@,
                JsonDoc::Bool(self.striping),
            ),
        )
    }

    pub(crate) fn to_json(&self) -> (json: serde_json::Value)
        ensures
            json_doc(json) == self.doc(),
    {
        let mut json = json_object();
        json_set(&mut json, "concurrency-level", json_integer(self.concurrency_level as i64));
        json_set(&mut json, "acquire-timeout", json_integer(self.acquire_timeout as i64));
        json_set(&mut json, "striping", json_bool(self.striping));
        json
    }
}

impl Default for Locking {
    fn default() -> (locking: Self)
        ensures
            locking == Locking::standard(),
    {
        Self {
            concurrency_level: DEFAULT_CONCURRENCY_LEVEL,
            acquire_timeout: DEFAULT_ACQUIRE_TIMEOUT,
            striping: false,
        }
    }
}

/// How long a cache waits for the state of the others when it joins.
#[derive(Eq, PartialEq, Debug)]
pub struct StateTransfer {
    pub timeout: i32,
}

impl StateTransfer {
    /// The state transfer that every new clustered cache gets.
    pub open spec fn standard() -> StateTransfer {
        StateTransfer { timeout: DEFAULT_STATE_TRANSFER_TIMEOUT }
    }

    pub open spec fn doc(self) -> JsonDoc {
        JsonDoc::Object(Map::empty().insert("timeout"@, JsonDoc::Integer(self.timeout as int)))
    }

    pub(crate) fn to_json(&self) -> (json: serde_json::Value)
        ensures
            json_doc(json) == self.doc(),
    {
        let mut json = json_object();
        json_set(&mut json, "timeout", json_integer(self.timeout as i64));
        json
    }
}

/// A cache kept on one node.
#[derive(Eq, PartialEq, Debug)]
pub struct Local {
    pub locking: Locking,
    pub statistics: bool,
}

impl Local {
    /// The local cache that is created by default.
    pub open spec fn standard() -> Local {
        Local { locking: Locking::standard(), statistics: true }
    }

    pub open spec fn doc(self) -> JsonDoc {
        JsonDoc::Object(
            Map::empty().insert("locking"@, self.locking.doc()).insert(
                "statistics"@,
                JsonDoc::Bool(self.statistics),
            ),
        )
    }

    pub(crate) fn to_json(&self) -> (json: serde_json::Value)
        ensures
            json_doc(json) == self.doc(),
    {
        let mut json = json_object();
        json_set(&mut json, "locking", self.locking.to_json());
        json_set(&mut json, "statistics", json_bool(self.statistics));
        json
    }
}

impl Default for Local {
    fn default() -> (local: Self)
        ensures
            local == Local::standard(),
    {
        Self { locking: Locking::default(), statistics: true }
    }
}

/// The mode name of a cache that does not wait for the other nodes.
pub open spec fn mode_async() -> Seq<char> {
    "ASYNC"@
}

/// The mode name of a cache that waits for the other nodes.
pub open spec fn mode_sync() -> Seq<char> {
    "SYNC"@
}

/// A cache whose entries are spread over the nodes.
#[derive(Eq, PartialEq, Debug)]
pub struct Distributed {
    pub mode: String,
    pub state_transfer: StateTransfer,
    pub locking: Locking,
    pub statistics: bool,
}

/// A [`Distributed`] as contracts see it.
pub struct DistributedView {
    pub mode: Seq<char>,
    pub state_transfer: StateTransfer,
    pub locking: Locking,
    pub statistics: bool,
}

impl DistributedView {
    /// The distributed cache that is created by default, in the given mode.
    pub open spec fn standard(mode: Seq<char>) -> DistributedView {
        DistributedView {
            mode,
            state_transfer: StateTransfer::standard(),
            locking: Locking::standard(),
            statistics: true,
        }
    }

    pub open spec fn doc(self) -> JsonDoc {
        JsonDoc::Object(
            Map::empty().insert("mode"@, JsonDoc::Text(self.mode)).insert(
                "state-transfer"@,
                self.state_transfer.doc(),
            ).insert("locking"@, self.locking.doc()).insert(
                "statistics"@,
                JsonDoc::Bool(self.statistics),
            ),
        )
    }
}

impl View for Distributed {
    type V = DistributedView;

    open spec fn view(&self) -> DistributedView {
        DistributedView {
            mode: self.mode@,
            state_transfer: self.state_transfer,
            locking: self.locking,
            statistics: self.statistics,
        }
    }
}

impl Distributed {
    pub fn create_async() -> (cache: Self)
        ensures
            cache@ == DistributedView::standard(mode_async()),
    {
        Self {
            mode: String::from_str("ASYNC"),
            state_transfer: StateTransfer { timeout: DEFAULT_STATE_TRANSFER_TIMEOUT },
            locking: Locking::default(),
            statistics: true,
        }
    }

    pub fn create_sync() -> (cache: Self)
        ensures
            cache@ == DistributedView::standard(mode_sync()),
    {
        Self {
            mode: String::from_str("SYNC"),
            state_transfer: StateTransfer { timeout: DEFAULT_STATE_TRANSFER_TIMEOUT },
            locking: Locking::default(),
            statistics: true,
        }
    }

    pub(crate) fn to_json(&self) -> (json: serde_json::Value)
        ensures
            json_doc(json) == self@.doc(),
    {
        let mut json = json_object();
        json_set(&mut json, "mode", json_string(self.mode.as_str()));
        json_set(&mut json, "state-transfer", self.state_transfer.to_json());
        json_set(&mut json, "locking", self.locking.to_json());
        json_set(&mut json, "statistics", json_bool(self.statistics));
        json
    }
}

/// A cache of which every node holds every entry.
#[derive(Eq, PartialEq, Debug)]
pub struct Replicated {
    pub mode: String,
    pub remote_timeout: Option<i32>,
    pub state_transfer: StateTransfer,
    pub locking: Locking,
    pub statistics: bool,
}

/// A [`Replicated`] as contracts see it.
pub struct ReplicatedView {
    pub mode: Seq<char>,
    pub remote_timeout: Option<i32>,
    pub state_transfer: StateTransfer,
    pub locking: Locking,
    pub statistics: bool,
}

impl ReplicatedView {
    /// The replicated cache that is created by default, in the given mode and
    /// with the given time to wait for the other nodes.
    pub open spec fn standard(mode: Seq<char>, remote_timeout: Option<i32>) -> ReplicatedView {
        ReplicatedView {
            mode,
            remote_timeout,
            state_transfer: StateTransfer::standard(),
            locking: Locking::standard(),
            statistics: true,
        }
    }

    /// The members that the document has whatever the remote timeout is.
    pub open spec fn fixed_members(self) -> Map<Seq<char>, JsonDoc> {
        Map::empty().insert("mode"@, JsonDoc::Text(self.mode)).insert(
            "state-transfer"@,
            self.state_transfer.doc(),
        ).insert("locking"@, self.locking.doc()).insert(
            "statistics"@,
            JsonDoc::Bool(self.statistics),
        )
    }

    /// The document: the remote timeout is a member only where it is set.
    pub open spec fn doc(self) -> JsonDoc {
        match self.remote_timeout {
            Some(timeout) => JsonDoc::Object(
                self.fixed_members().insert("remote-timeout"@, JsonDoc::Integer(timeout as int)),
            ),
            None => JsonDoc::Object(self.fixed_members()),
        }
    }
}

impl View for Replicated {
    type V = ReplicatedView;

    open spec fn view(&self) -> ReplicatedView {
        ReplicatedView {
            mode: self.mode@,
            remote_timeout: self.remote_timeout,
            state_transfer: self.state_transfer,
            locking: self.locking,
            statistics: self.statistics,
        }
    }
}

impl Replicated {
    pub fn create_async() -> (cache: Self)
        ensures
            cache@ == ReplicatedView::standard(mode_async(), None),
    {
        Self {
            mode: String::from_str("ASYNC"),
            remote_timeout: None,
            state_transfer: StateTransfer { timeout: DEFAULT_STATE_TRANSFER_TIMEOUT },
            locking: Locking::default(),
            statistics: true,
        }
    }

    pub fn create_sync() -> (cache: Self)
        ensures
            cache@ == ReplicatedView::standard(mode_sync(), Some(DEFAULT_REMOTE_TIMEOUT)),
    {
        Self {
            mode: String::from_str("SYNC"),
            remote_timeout: Some(DEFAULT_REMOTE_TIMEOUT),
            state_transfer: StateTransfer { timeout: DEFAULT_STATE_TRANSFER_TIMEOUT },
            locking: Locking::default(),
            statistics: true,
        }
    }

    pub(crate) fn to_json(&self) -> (json: serde_json::Value)
        ensures
            json_doc(json) == self@.doc(),
    {
        let mut json = json_object();
        json_set(&mut json, "mode", json_string(self.mode.as_str()));
        json_set(&mut json, "state-transfer", self.state_transfer.to_json());
        json_set(&mut json, "locking", self.locking.to_json());
        json_set(&mut json, "statistics", json_bool(self.statistics));
        if let Some(timeout) = self.remote_timeout {
            json_set(&mut json, "remote-timeout", json_integer(timeout as i64));
        }
        json
    }
}

/// A cache whose nodes tell each other to drop entries that changed.
#[derive(Eq, PartialEq, Debug)]
pub struct Invalidation {
    pub mode: String,
    pub remote_timeout: Option<i32>,
    pub locking: Locking,
    pub statistics: bool,
}

/// An [`Invalidation`] as contracts see it.
pub struct InvalidationView {
    pub mode: Seq<char>,
    pub remote_timeout: Option<i32>,
    pub locking: Locking,
    pub statistics: bool,
}

impl InvalidationView {
    /// The invalidation cache that is created by default, in the given mode
    /// and with the given time to wait for the other nodes.
    pub open spec fn standard(mode: Seq<char>, remote_timeout: Option<i32>) -> InvalidationView {
        InvalidationView { mode, remote_timeout, locking: Locking::standard(), statistics: true }
    }

    /// The members that the document has whatever the remote timeout is.
    pub open spec fn fixed_members(self) -> Map<Seq<char>, JsonDoc> {
        Map::empty().insert("mode"@, JsonDoc::Text(self.mode)).insert(
            "locking"@,
            self.locking.doc(),
        ).insert("statistics"@, JsonDoc::Bool(self.statistics))
    }

    /// The document: the remote timeout is a member only where it is set.
    pub open spec fn doc(self) -> JsonDoc {
        match self.remote_timeout {
            Some(timeout) => JsonDoc::Object(
                self.fixed_members().insert("remote-timeout"@, JsonDoc::Integer(timeout as int)),
            ),
            None => JsonDoc::Object(self.fixed_members()),
        }
    }
}

impl View for Invalidation {
    type V = InvalidationView;

    open spec fn view(&self) -> InvalidationView {
        InvalidationView {
            mode: self.mode@,
            remote_timeout: self.remote_timeout,
            locking: self.locking,
            statistics: self.statistics,
        }
    }
}

impl Invalidation {
    pub fn create_async() -> (cache: Self)
        ensures
            cache@ == InvalidationView::standard(mode_async(), None),
    {
        Self {
            mode: String::from_str("ASYNC"),
            remote_timeout: None,
            locking: Locking::default(),
            statistics: true,
        }
    }

    pub fn create_sync() -> (cache: Self)
        ensures
            cache@ == InvalidationView::standard(mode_sync(), Some(DEFAULT_REMOTE_TIMEOUT)),
    {
        Self {
            mode: String::from_str("SYNC"),
            remote_timeout: Some(DEFAULT_REMOTE_TIMEOUT),
            locking: Locking::default(),
            statistics: true,
        }
    }

    pub(crate) fn to_json(&self) -> (json: serde_json::Value)
        ensures
            json_doc(json) == self@.doc(),
    {
        let mut json = json_object();
        json_set(&mut json, "mode", json_string(self.mode.as_str()));
        json_set(&mut json, "locking", self.locking.to_json());
        json_set(&mut json, "statistics", json_bool(self.statistics));
        if let Some(timeout) = self.remote_timeout {
            json_set(&mut json, "remote-timeout", json_integer(timeout as i64));
        }
        json
    }
}

/// The keys of a clustered cache's document are five different texts.
proof fn lemma_keys_differ()
    ensures
        "remote-timeout"@ != "mode"@,
        "remote-timeout"@ != "state-transfer"@,
        "remote-timeout"@ != "locking"@,
        "remote-timeout"@ != "statistics"@,
{
    reveal_strlit("remote-timeout");
    reveal_strlit("mode");
    reveal_strlit("state-transfer");
    reveal_strlit("locking");
    reveal_strlit("statistics");
    assert("remote-timeout"@[0] == 'r');
}

/// The document of a replicated cache has the member `remote-timeout` exactly
/// where the cache has a remote timeout, and the member is then that number.
pub proof fn lemma_replicated_remote_timeout(cache: ReplicatedView)
    ensures
        cache.doc().has_member("remote-timeout"@) <==> cache.remote_timeout is Some,
        cache.remote_timeout matches Some(timeout) ==> cache.doc().member("remote-timeout"@)
            == JsonDoc::Integer(timeout as int),
{
    lemma_keys_differ();
}

/// The document of an invalidation cache has the member `remote-timeout`
/// exactly where the cache has a remote timeout, and the member is then that
/// number.
pub proof fn lemma_invalidation_remote_timeout(cache: InvalidationView)
    ensures
        cache.doc().has_member("remote-timeout"@) <==> cache.remote_timeout is Some,
        cache.remote_timeout matches Some(timeout) ==> cache.doc().member("remote-timeout"@)
            == JsonDoc::Integer(timeout as int),
{
    lemma_keys_differ();
}

/// A replicated or invalidation cache that is created asynchronous is
/// rendered without the member `remote-timeout`; one that is created
/// synchronous is rendered with it, as 17500.
pub proof fn lemma_remote_timeout_follows_mode()
    ensures
        !ReplicatedView::standard(mode_async(), None).doc().has_member("remote-timeout"@),
        !InvalidationView::standard(mode_async(), None).doc().has_member("remote-timeout"@),
        ReplicatedView::standard(mode_sync(), Some(DEFAULT_REMOTE_TIMEOUT)).doc().has_member(
            "remote-timeout"@,
        ),
        ReplicatedView::standard(mode_sync(), Some(DEFAULT_REMOTE_TIMEOUT)).doc().member(
            "remote-timeout"@,
        ) == JsonDoc::Integer(17500),
        InvalidationView::standard(mode_sync(), Some(DEFAULT_REMOTE_TIMEOUT)).doc().has_member(
            "remote-timeout"@,
        ),
        InvalidationView::standard(mode_sync(), Some(DEFAULT_REMOTE_TIMEOUT)).doc().member(
            "remote-timeout"@,
        ) == JsonDoc::Integer(17500),
{
    lemma_replicated_remote_timeout(ReplicatedView::standard(mode_async(), None));
    lemma_replicated_remote_timeout(
        ReplicatedView::standard(mode_sync(), Some(DEFAULT_REMOTE_TIMEOUT)),
    );
    lemma_invalidation_remote_timeout(InvalidationView::standard(mode_async(), None));
    lemma_invalidation_remote_timeout(
        InvalidationView::standard(mode_sync(), Some(DEFAULT_REMOTE_TIMEOUT)),
    );
}

} // verus!
