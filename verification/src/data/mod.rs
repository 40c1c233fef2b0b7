//! Data client of the OANDA adapter: its connection state, its instrument
//! cache, and its answers to instrument requests.
//!
//! Sending the responses to the data engine, and awaiting the client's tasks
//! when it disconnects, happen outside this crate: the client returns the
//! responses it builds, and splits disconnecting into
//! [`OandaDataClient::begin_disconnect`] and
//! [`OandaDataClient::finish_disconnect`].

use vstd::prelude::*;

use crate::common::consts::OANDA;
use crate::config::OandaDataClientConfig;
use crate::common::cancellation::CancellationHandle;
use crate::common::task::TaskHandle;
use crate::http::client::OandaHttpClient;
use crate::http::error::OandaHttpError;
use crate::http::models::OandaInstrument;
use crate::http::retry::spec_oanda_retry_config;

verus! {

/// Identifies an instrument: its symbol and its venue.
#[derive(Debug)]
pub struct InstrumentId {
    pub symbol: String,
    pub venue: String,
}

impl View for InstrumentId {
    type V = (Seq<char>, Seq<char>);

    open spec fn view(&self) -> (Seq<char>, Seq<char>) {
        (self.symbol@, self.venue@)
    }
}

impl InstrumentId {
    /// Creates the identifier of `symbol` on `venue`.
    pub fn new(symbol: String, venue: String) -> (id: Self)
        ensures
            id@ == (symbol@, venue@),
    {
        InstrumentId { symbol, venue }
    }

    /// Returns whether `self` and `other` identify the same instrument.
    pub fn same_id(&self, other: &InstrumentId) -> (same: bool)
        ensures
            same == (self@ == other@),
    {
        self.symbol == other.symbol && self.venue == other.venue
    }
}

impl Clone for InstrumentId {
    fn clone(&self) -> (copy: Self)
        ensures
            copy == *self,
    {
        InstrumentId { symbol: self.symbol.clone(), venue: self.venue.clone() }
    }
}

/// An instant in UTC, as a count of whole seconds since the Unix epoch and
/// the nanoseconds since that second (at least 1 000 000 000 during a leap
/// second).
#[derive(Clone, Copy, Debug, PartialEq, Eq, Structural)]
pub struct UtcDateTime {
    pub secs: i64,
    pub subsec_nanos: u32,
}

/// Whether `value` fits in an `i64`.
pub open spec fn fits_i64(value: int) -> bool {
    i64::MIN <= value <= i64::MAX
}

impl UtcDateTime {
    /// The nanoseconds since the Unix epoch, when they fit in an `i64`. To
    /// keep every intermediate value in range, a negative count of seconds is
    /// first moved up by one second, which the nanoseconds give back.
    pub open spec fn spec_timestamp_nanos(self) -> Option<int> {
        let (secs, nanos) = if self.secs < 0 {
            (self.secs + 1, self.subsec_nanos - 1_000_000_000)
        } else {
            (self.secs as int, self.subsec_nanos as int)
        };
        if fits_i64(secs * 1_000_000_000) && fits_i64(secs * 1_000_000_000 + nanos) {
            Some(secs * 1_000_000_000 + nanos)
        } else {
            None
        }
    }

    /// Returns the nanoseconds since the Unix epoch, or `None` when they do
    /// not fit in an `i64`.
    pub fn timestamp_nanos_opt(&self) -> (nanos: Option<i64>)
        ensures
            match nanos {
                Some(n) => self.spec_timestamp_nanos() == Some(n as int),
                None => self.spec_timestamp_nanos() is None,
            },
    {
        let mut secs: i64 = self.secs;
        let mut nanos: i64 = self.subsec_nanos as i64;
        if secs < 0 {
            nanos = nanos - 1_000_000_000;
            secs = secs + 1;
        }
        match secs.checked_mul(1_000_000_000) {
            Some(scaled) => scaled.checked_add(nanos),
            None => None,
        }
    }
}

/// The shift of a negative count of seconds never changes the result: when
/// the nanoseconds since the epoch are given, they are
/// `secs * 1_000_000_000 + subsec_nanos`.
pub proof fn lemma_timestamp_nanos_value(dt: UtcDateTime)
    requires
        dt.spec_timestamp_nanos() is Some,
    ensures
        dt.spec_timestamp_nanos() == Some(dt.secs * 1_000_000_000 + dt.subsec_nanos),
{
}

/// An instant from the epoch up to the end of the `i64` range of
/// nanoseconds converts to exactly its nanoseconds since the epoch.
pub proof fn lemma_unix_nanos_in_range(dt: UtcDateTime)
    requires
        dt.secs >= 0,
        dt.secs * 1_000_000_000 + dt.subsec_nanos <= i64::MAX,
    ensures
        spec_datetime_to_unix_nanos(Some(dt)) == Some((dt.secs * 1_000_000_000 + dt.subsec_nanos) as u64),
{
}

/// An instant before the epoch has no Unix nanoseconds.
pub proof fn lemma_no_unix_nanos_before_epoch(dt: UtcDateTime)
    requires
        dt.secs * 1_000_000_000 + dt.subsec_nanos < 0,
    ensures
        spec_datetime_to_unix_nanos(Some(dt)) is None,
{
}

/// The Unix nanoseconds of `value`, when it is given and falls neither
/// before the epoch nor beyond the range of an `i64`.
pub open spec fn spec_datetime_to_unix_nanos(value: Option<UtcDateTime>) -> Option<u64> {
    match value {
        Some(dt) => match dt.spec_timestamp_nanos() {
            Some(n) => if n >= 0 {
                Some(n as u64)
            } else {
                None
            },
            None => None,
        },
        None => None,
    }
}

/// Converts an optional instant to Unix nanoseconds.
pub fn datetime_to_unix_nanos(value: Option<UtcDateTime>) -> (nanos: Option<u64>)
    ensures
        nanos == spec_datetime_to_unix_nanos(value),
{
    match value {
        Some(dt) => match dt.timestamp_nanos_opt() {
            Some(n) => if n >= 0 {
                Some(n as u64)
            } else {
                None
            },
            None => None,
        },
        None => None,
    }
}

/// Extra parameters of a request, as pairs of name and value, in order.
pub type Params = Vec<(String, String)>;

/// The parameters `params`, as characters.
pub open spec fn spec_params_view(params: Option<Params>) -> Option<Seq<(Seq<char>, Seq<char>)>> {
    match params {
        Some(p) => Some(p@.map_values(|e: (String, String)| (e.0@, e.1@))),
        None => None,
    }
}

/// Returns a copy of `params`.
pub fn clone_params(params: &Option<Params>) -> (copy: Option<Params>)
    ensures
        spec_params_view(copy) == spec_params_view(*params),
{
    match params {
        Some(p) => {
            let mut copy: Params = Vec::new();
            let mut k: usize = 0;
            while k < p.len()
                invariant
                    k <= p@.len(),
                    copy@.len() == k,
                    forall|i: int|
                        0 <= i < k ==> (#[trigger] copy@[i]).0@ == p@[i].0@ && copy@[i].1@
                            == p@[i].1@,
                decreases p@.len() - k,
            {
                copy.push((p[k].0.clone(), p[k].1.clone()));
                k += 1;
            }
            assert(copy@.map_values(|e: (String, String)| (e.0@, e.1@)) =~= p@.map_values(
                |e: (String, String)| (e.0@, e.1@),
            ));
            Some(copy)
        },
        None => None,
    }
}

/// A request for the instruments of a venue.
pub struct RequestInstruments {
    pub start: Option<UtcDateTime>,
    pub end: Option<UtcDateTime>,
    /// The client that should answer; the receiving client when `None`.
    pub client_id: Option<String>,
    pub venue: Option<String>,
    pub request_id: String,
    pub ts_init: u64,
    pub params: Option<Params>,
}

/// A request for one instrument.
pub struct RequestInstrument {
    pub instrument_id: InstrumentId,
    pub start: Option<UtcDateTime>,
    pub end: Option<UtcDateTime>,
    /// The client that should answer; the receiving client when `None`.
    pub client_id: Option<String>,
    pub request_id: String,
    pub ts_init: u64,
    pub params: Option<Params>,
}

/// The answer to a [`RequestInstruments`].
pub struct InstrumentsResponse {
    /// The `request_id` of the request answered.
    pub correlation_id: String,
    pub client_id: String,
    pub venue: String,
    pub data: Vec<OandaInstrument>,
    pub start: Option<u64>,
    pub end: Option<u64>,
    pub ts_init: u64,
    /// The `params` of the request answered.
    pub params: Option<Params>,
}

/// The answer to a [`RequestInstrument`].
pub struct InstrumentResponse {
    /// The `request_id` of the request answered.
    pub correlation_id: String,
    pub client_id: String,
    pub instrument_id: InstrumentId,
    pub data: OandaInstrument,
    pub start: Option<u64>,
    pub end: Option<u64>,
    pub ts_init: u64,
    /// The `params` of the request answered.
    pub params: Option<Params>,
}

/// An error of the data client.
#[derive(Debug)]
pub enum OandaDataClientError {
    /// The HTTP client could not be constructed.
    HttpClient(OandaHttpError),
    /// No cached instrument has the requested identifier.
    InstrumentNotFound(InstrumentId),
}

impl OandaDataClientError {
    /// The text of the error; an instrument is written as `SYMBOL.VENUE`.
    pub open spec fn spec_message(&self) -> Seq<char> {
        match self {
            OandaDataClientError::HttpClient(_) => "failed to construct OANDA HTTP client"@,
            OandaDataClientError::InstrumentNotFound(id) => "Instrument "@ + id.symbol@ + "."@
                + id.venue@ + " not found"@,
        }
    }

    /// Returns the text of the error.
    pub fn message(&self) -> (message: String)
        ensures
            message@ == self.spec_message(),
    {
        match self {
            OandaDataClientError::HttpClient(_) => String::from_str(
                "failed to construct OANDA HTTP client",
            ),
            OandaDataClientError::InstrumentNotFound(id) => {
                let mut message = String::from_str("Instrument ");
                message.append(id.symbol.as_str());
                message.append(".");
                message.append(id.venue.as_str());
                message.append(" not found");
                message
            },
        }
    }
}

/// No two entries of `entries` have the same identifier.
pub open spec fn unique_ids(entries: Seq<(InstrumentId, OandaInstrument)>) -> bool {
    forall|i: int, j: int|
        0 <= i < entries.len() && 0 <= j < entries.len() && i != j ==> #[trigger] entries[i].0@
            != #[trigger] entries[j].0@
}

/// The instruments a data client knows, with their identifiers; no
/// identifier occurs twice.
pub struct InstrumentCache {
    entries: Vec<(InstrumentId, OandaInstrument)>,
}

impl InstrumentCache {
    /// No identifier occurs twice.
    #[verifier::type_invariant]
    spec fn wf(self) -> bool {
        unique_ids(self.entries@)
    }

    /// The cached instruments with their identifiers, in cache order.
    pub closed spec fn spec_entries(&self) -> Seq<(InstrumentId, OandaInstrument)> {
        self.entries@
    }

    /// Creates an empty cache.
    pub fn new() -> (cache: Self)
        ensures
            cache.spec_entries().len() == 0,
    {
        InstrumentCache { entries: Vec::new() }
    }

    /// Returns how many instruments are cached.
    pub fn len(&self) -> (n: usize)
        ensures
            n == self.spec_entries().len(),
    {
        self.entries.len()
    }

    /// Returns a copy of the instrument at position `index`.
    pub fn instrument_at(&self, index: usize) -> (instrument: OandaInstrument)
        requires
            index < self.spec_entries().len(),
        ensures
            instrument.same_as(self.spec_entries()[index as int].1),
    {
        self.entries[index].1.clone()
    }

    /// Returns a copy of the instrument with identifier `instrument_id`, if
    /// one is cached.
    pub fn get(&self, instrument_id: &InstrumentId) -> (found: Option<OandaInstrument>)
        ensures
            unique_ids(self.spec_entries()),
            found matches Some(instrument) ==> forall|k: int|
                0 <= k < self.spec_entries().len() && (#[trigger] self.spec_entries()[k]).0@
                    == instrument_id@ ==> instrument.same_as(self.spec_entries()[k].1),
            match found {
                Some(instrument) => exists|k: int|
                    0 <= k < self.spec_entries().len() && (#[trigger] self.spec_entries()[k]).0@
                        == instrument_id@ && instrument.same_as(self.spec_entries()[k].1),
                None => forall|k: int|
                    0 <= k < self.spec_entries().len() ==> (#[trigger] self.spec_entries()[k]).0@
                        != instrument_id@,
            },
    {
        proof {
            use_type_invariant(self);
        }
        let mut k: usize = 0;
        while k < self.entries.len()
            invariant
                k <= self.entries@.len(),
                unique_ids(self.entries@),
                forall|j: int| 0 <= j < k ==> (#[trigger] self.entries@[j]).0@ != instrument_id@,
            decreases self.entries@.len() - k,
        {
            if self.entries[k].0.same_id(instrument_id) {
                let instrument = self.entries[k].1.clone();
                assert(self.spec_entries()[k as int].0@ == instrument_id@);
                return Some(instrument);
            }
            k += 1;
        }
        None
    }
}

/// The OANDA data client.
pub struct OandaDataClient {
    client_id: String,
    config: OandaDataClientConfig,
    http_client: OandaHttpClient,
    is_connected: bool,
    cancellation_token: CancellationHandle,
    tasks: Vec<TaskHandle>,
    instruments: InstrumentCache,
    instrument_refresh_active: bool,
    /// The task handles that the last `stop` aborted.
    aborted_tasks: Ghost<Seq<TaskHandle>>,
}

impl OandaDataClient {
    /// The cancellation token of the client's tasks.
    pub closed spec fn spec_cancellation_token(&self) -> CancellationHandle {
        self.cancellation_token
    }

    /// Whether the current cancellation token has been cancelled; a token
    /// that the client installs starts out uncancelled.
    pub open spec fn spec_token_cancelled(&self) -> bool {
        self.spec_cancellation_token().spec_cancelled()
    }

    /// The task handles that the last [`Self::stop`] aborted.
    pub closed spec fn spec_aborted_tasks(&self) -> Seq<TaskHandle> {
        self.aborted_tasks@
    }

    /// The identifier of this client, as characters.
    pub closed spec fn spec_client_id(&self) -> Seq<char> {
        self.client_id@
    }

    /// The configuration the client was created with.
    pub closed spec fn spec_config(&self) -> OandaDataClientConfig {
        self.config
    }

    /// The HTTP client of this data client.
    pub closed spec fn spec_http_client(&self) -> OandaHttpClient {
        self.http_client
    }

    /// Whether the client is connected.
    pub closed spec fn spec_connected(&self) -> bool {
        self.is_connected
    }

    /// The cached instruments with their identifiers.
    pub closed spec fn spec_instruments(&self) -> Seq<(InstrumentId, OandaInstrument)> {
        self.instruments.spec_entries()
    }

    /// The handles of the tasks the client runs.
    pub closed spec fn spec_tasks(&self) -> Seq<TaskHandle> {
        self.tasks@
    }

    /// How many tasks the client runs.
    pub open spec fn spec_task_count(&self) -> nat {
        self.spec_tasks().len()
    }

    /// Whether the periodic instrument refresh is running.
    pub closed spec fn spec_refresh_active(&self) -> bool {
        self.instrument_refresh_active
    }

    /// Everything but the connection flag, the tasks and the cache is as in `other`.
    pub open spec fn same_setup(&self, other: &Self) -> bool {
        &&& self.spec_client_id() == other.spec_client_id()
        &&& self.spec_config() == other.spec_config()
        &&& self.spec_http_client() == other.spec_http_client()
    }

    /// The bearer token of `config`, as characters.
    pub open spec fn spec_config_token(config: OandaDataClientConfig) -> Option<Seq<char>> {
        match config.bearer_token {
            Some(token) => Some(token@),
            None => None,
        }
    }

    /// Creates a new [`OandaDataClient`] instance: disconnected, with no
    /// tasks, an empty instrument cache, and an HTTP client built from
    /// `config` (authenticated when `config` has a bearer token).
    pub fn new(client_id: String, config: OandaDataClientConfig) -> (client: Result<
        Self,
        OandaDataClientError,
    >)
        ensures
            client matches Ok(c) && {
                let http = c.spec_http_client().spec_inner();
                &&& c.spec_client_id() == client_id@
                &&& c.spec_config() == config
                &&& http.spec_base_url() == config.spec_http_base_url()
                &&& http.spec_token() == Self::spec_config_token(config)
                &&& http.spec_timeout_secs() == config.http_timeout_secs
                &&& http.spec_retry_config() == spec_oanda_retry_config(
                    config.max_retries,
                    config.retry_delay_initial_ms,
                    config.retry_delay_max_ms,
                )
                &&& !c.spec_connected()
                &&& c.spec_task_count() == 0
                &&& c.spec_instruments().len() == 0
                &&& !c.spec_refresh_active()
                &&& !c.spec_token_cancelled()
                &&& c.spec_aborted_tasks().len() == 0
            },
    {
        let http_client = match &config.bearer_token {
            Some(token) => OandaHttpClient::with_credentials(
                token.clone(),
                Some(config.http_base_url()),
                config.http_timeout_secs,
                config.max_retries,
                config.retry_delay_initial_ms,
                config.retry_delay_max_ms,
            ),
            None => OandaHttpClient::new(
                Some(config.http_base_url()),
                config.http_timeout_secs,
                config.max_retries,
                config.retry_delay_initial_ms,
                config.retry_delay_max_ms,
            ),
        };
        let http_client = match http_client {
            Ok(c) => c,
            Err(e) => {
                return Err(OandaDataClientError::HttpClient(e));
            },
        };
        Ok(OandaDataClient {
            client_id,
            config,
            http_client,
            is_connected: false,
            cancellation_token: CancellationHandle::new(),
            tasks: Vec::new(),
            instruments: InstrumentCache::new(),
            instrument_refresh_active: false,
            aborted_tasks: Ghost(Seq::empty()),
        })
    }

    /// Returns the venue of this client: OANDA.
    pub fn venue(&self) -> (venue: &'static str)
        ensures
            venue@ == OANDA@,
    {
        OANDA
    }

    /// Returns the identifier of this client.
    pub fn client_id(&self) -> (id: &str)
        ensures
            id@ == self.spec_client_id(),
    {
        self.client_id.as_str()
    }

    /// Returns the HTTP client of this data client.
    pub fn http_client(&self) -> (http: &OandaHttpClient)
        ensures
            *http == self.spec_http_client(),
    {
        &self.http_client
    }

    /// Returns the cached instrument with identifier `instrument_id`, if any.
    pub fn get_instrument(&self, instrument_id: &InstrumentId) -> (found: Option<OandaInstrument>)
        ensures
            unique_ids(self.spec_instruments()),
            found matches Some(instrument) ==> forall|k: int|
                0 <= k < self.spec_instruments().len() && (#[trigger] self.spec_instruments()[k]).0@
                    == instrument_id@ ==> instrument.same_as(self.spec_instruments()[k].1),
            match found {
                Some(instrument) => exists|k: int|
                    0 <= k < self.spec_instruments().len() && (#[trigger] self.spec_instruments()[k]).0@
                        == instrument_id@ && instrument.same_as(self.spec_instruments()[k].1),
                None => forall|k: int|
                    0 <= k < self.spec_instruments().len() ==> (#[trigger] self.spec_instruments()[k]).0@
                        != instrument_id@,
            },
    {
        let found = self.instruments.get(instrument_id);
        proof {
            if found is Some {
                let instrument = found.unwrap();
                let k = choose|k: int|
                    0 <= k < self.instruments.spec_entries().len() && (
                    #[trigger] self.instruments.spec_entries()[k]).0@ == instrument_id@
                        && instrument.same_as(self.instruments.spec_entries()[k].1);
                assert(self.spec_instruments()[k] == self.instruments.spec_entries()[k]);
            }
        }
        found
    }

    /// Loads the instruments of the account into the cache. Nothing is
    /// loaded yet: the cache stays as it is.
    fn bootstrap_instruments(&mut self) -> (result: Result<(), OandaDataClientError>)
        ensures
            result is Ok,
            *final(self) == *old(self),
    {
        Ok(())
    }

    /// Starts the client; nothing changes.
    pub fn start(&mut self) -> (result: Result<(), OandaDataClientError>)
        ensures
            result is Ok,
            *final(self) == *old(self),
    {
        Ok(())
    }

    /// Every task of `before` was aborted, and `aborted` holds their
    /// handles, in the same order.
    pub open spec fn all_aborted(aborted: Seq<TaskHandle>, before: Seq<TaskHandle>) -> bool {
        &&& aborted.len() == before.len()
        &&& forall|i: int|
            0 <= i < before.len() ==> (#[trigger] aborted[i]).spec_handle()
                == before[i].spec_handle() && aborted[i].spec_aborted()
    }

    /// Stops the client: cancels its cancellation token, aborts every task,
    /// forgets them, and marks the client disconnected. The cache stays as it
    /// is.
    pub fn stop(&mut self) -> (result: Result<(), OandaDataClientError>)
        ensures
            result is Ok,
            !final(self).spec_connected(),
            final(self).spec_task_count() == 0,
            final(self).spec_cancellation_token().spec_token()
                == old(self).spec_cancellation_token().spec_token(),
            final(self).spec_token_cancelled(),
            Self::all_aborted(final(self).spec_aborted_tasks(), old(self).spec_tasks()),
            final(self).same_setup(old(self)),
            final(self).spec_instruments() == old(self).spec_instruments(),
            final(self).spec_refresh_active() == old(self).spec_refresh_active(),
    {
        self.cancellation_token.cancel();
        let mut pending: Vec<TaskHandle> = Vec::new();
        std::mem::swap(&mut pending, &mut self.tasks);
        let ghost original = pending@;
        let ghost mut aborted: Seq<TaskHandle> = Seq::empty();
        while pending.len() > 0
            invariant
                pending@.len() <= original.len(),
                forall|i: int| 0 <= i < pending@.len() ==> pending@[i] == original[i],
                aborted.len() + pending@.len() == original.len(),
                forall|i: int|
                    0 <= i < aborted.len() ==> (#[trigger] aborted[i]).spec_handle()
                        == original[pending@.len() + i].spec_handle() && aborted[i].spec_aborted(),
            decreases pending@.len(),
        {
            let mut task = pending.pop().unwrap();
            task.abort();
            proof {
                aborted = seq![task].add(aborted);
            }
        }
        proof {
            self.aborted_tasks@ = aborted;
        }
        self.is_connected = false;
        Ok(())
    }

    /// Resets the client: stops it (cancelling its token and aborting its
    /// tasks), installs a fresh cancellation token, empties the instrument
    /// cache and ends the instrument refresh.
    pub fn reset(&mut self) -> (result: Result<(), OandaDataClientError>)
        ensures
            result is Ok,
            !final(self).spec_connected(),
            final(self).spec_task_count() == 0,
            Self::all_aborted(final(self).spec_aborted_tasks(), old(self).spec_tasks()),
            !final(self).spec_token_cancelled(),
            final(self).same_setup(old(self)),
            final(self).spec_instruments().len() == 0,
            !final(self).spec_refresh_active(),
    {
        self.stop()?;
        self.cancellation_token = CancellationHandle::new();
        self.instruments = InstrumentCache::new();
        self.instrument_refresh_active = false;
        Ok(())
    }

    /// Disposes of the client: stops it (cancelling its token and aborting
    /// its tasks).
    pub fn dispose(&mut self) -> (result: Result<(), OandaDataClientError>)
        ensures
            result is Ok,
            !final(self).spec_connected(),
            final(self).spec_task_count() == 0,
            final(self).spec_cancellation_token().spec_token()
                == old(self).spec_cancellation_token().spec_token(),
            final(self).spec_token_cancelled(),
            Self::all_aborted(final(self).spec_aborted_tasks(), old(self).spec_tasks()),
            final(self).same_setup(old(self)),
            final(self).spec_instruments() == old(self).spec_instruments(),
            final(self).spec_refresh_active() == old(self).spec_refresh_active(),
    {
        self.stop()
    }

    /// Returns whether the client is connected.
    pub fn is_connected(&self) -> (connected: bool)
        ensures
            connected == self.spec_connected(),
    {
        self.is_connected
    }

    /// Returns whether the client is disconnected.
    pub fn is_disconnected(&self) -> (disconnected: bool)
        ensures
            disconnected == !self.spec_connected(),
    {
        !self.is_connected()
    }

    /// Connects the client: a connected client stays exactly as it is; any
    /// other gets a fresh cancellation token, loads its instruments, and is
    /// marked connected.
    pub fn connect(&mut self) -> (result: Result<(), OandaDataClientError>)
        ensures
            result is Ok,
            final(self).spec_connected(),
            old(self).spec_connected() ==> *final(self) == *old(self),
            !old(self).spec_connected() ==> !final(self).spec_token_cancelled(),
            final(self).same_setup(old(self)),
            final(self).spec_task_count() == old(self).spec_task_count(),
            final(self).spec_instruments() == old(self).spec_instruments(),
            final(self).spec_refresh_active() == old(self).spec_refresh_active(),
    {
        if self.is_connected() {
            return Ok(());
        }
        self.cancellation_token = CancellationHandle::new();
        self.bootstrap_instruments()?;
        self.is_connected = true;
        Ok(())
    }

    /// Begins disconnecting: a disconnected client stays exactly as it is and
    /// `None` is returned; a connected one has its cancellation token
    /// cancelled and hands over its tasks, which the caller awaits before
    /// calling [`Self::finish_disconnect`].
    pub fn begin_disconnect(&mut self) -> (tasks: Option<Vec<TaskHandle>>)
        ensures
            tasks is None <==> !old(self).spec_connected(),
            tasks is None ==> *final(self) == *old(self),
            tasks matches Some(t) ==> {
                &&& t@ == old(self).spec_tasks()
                &&& final(self).spec_task_count() == 0
                &&& final(self).spec_cancellation_token().spec_token()
                    == old(self).spec_cancellation_token().spec_token()
                &&& final(self).spec_token_cancelled()
                &&& final(self).spec_connected()
                &&& final(self).same_setup(old(self))
                &&& final(self).spec_instruments() == old(self).spec_instruments()
                &&& final(self).spec_refresh_active() == old(self).spec_refresh_active()
            },
    {
        if !self.is_connected() {
            return None;
        }
        self.cancellation_token.cancel();
        let mut tasks: Vec<TaskHandle> = Vec::new();
        std::mem::swap(&mut tasks, &mut self.tasks);
        Some(tasks)
    }

    /// Finishes disconnecting once the tasks handed over by
    /// [`Self::begin_disconnect`] have ended: empties the instrument cache,
    /// installs a fresh cancellation token, and marks the client disconnected.
    pub fn finish_disconnect(&mut self)
        ensures
            !final(self).spec_connected(),
            !final(self).spec_token_cancelled(),
            final(self).spec_instruments().len() == 0,
            final(self).same_setup(old(self)),
            final(self).spec_task_count() == old(self).spec_task_count(),
            final(self).spec_refresh_active() == old(self).spec_refresh_active(),
    {
        self.instruments = InstrumentCache::new();
        self.cancellation_token = CancellationHandle::new();
        self.is_connected = false;
    }

    /// The client that answers a request: the one it names, else this one.
    pub open spec fn spec_answering_client(&self, requested: Option<String>) -> Seq<char> {
        match requested {
            Some(id) => id@,
            None => self.spec_client_id(),
        }
    }

    /// A request that names a client is answered in that client's name; only
    /// a request that names none is answered in this client's name.
    pub proof fn lemma_answering_client(&self, requested: Option<String>)
        ensures
            requested matches Some(id) ==> self.spec_answering_client(requested) == id@,
            requested is None ==> self.spec_answering_client(requested)
                == self.spec_client_id(),
    {
    }

    /// Answers `request` with every cached instrument; `ts_init` is the time
    /// of the answer, in Unix nanoseconds.
    pub fn request_instruments(&self, request: &RequestInstruments, ts_init: u64) -> (response:
        Result<InstrumentsResponse, OandaDataClientError>)
        ensures
            response matches Ok(r) && {
                &&& r.correlation_id == request.request_id
                &&& r.client_id@ == self.spec_answering_client(request.client_id)
                &&& request.client_id matches Some(id) ==> r.client_id@ == id@
                &&& request.client_id is None ==> r.client_id@ == self.spec_client_id()
                &&& r.venue@ == OANDA@
                &&& r.data.len() == self.spec_instruments().len()
                &&& forall|i: int|
                    0 <= i < r.data.len() ==> (#[trigger] r.data[i]).same_as(
                        self.spec_instruments()[i].1,
                    )
                &&& r.start == spec_datetime_to_unix_nanos(request.start)
                &&& r.end == spec_datetime_to_unix_nanos(request.end)
                &&& r.ts_init == ts_init
                &&& spec_params_view(r.params) == spec_params_view(request.params)
            },
    {
        let mut data: Vec<OandaInstrument> = Vec::new();
        let mut k: usize = 0;
        while k < self.instruments.len()
            invariant
                k <= self.spec_instruments().len(),
                data@.len() == k,
                forall|i: int|
                    0 <= i < k ==> (#[trigger] data@[i]).same_as(self.spec_instruments()[i].1),
            decreases self.spec_instruments().len() - k,
        {
            data.push(self.instruments.instrument_at(k));
            k += 1;
        }
        let client_id = match &request.client_id {
            Some(id) => id.clone(),
            None => self.client_id.clone(),
        };
        Ok(InstrumentsResponse {
            correlation_id: request.request_id.clone(),
            client_id,
            venue: OANDA.to_owned(),
            data,
            start: datetime_to_unix_nanos(request.start),
            end: datetime_to_unix_nanos(request.end),
            ts_init,
            params: clone_params(&request.params),
        })
    }

    /// Answers `request` with the cached instrument it names; fails with
    /// [`OandaDataClientError::InstrumentNotFound`] exactly when no cached
    /// instrument has that identifier. `ts_init` is the time of the answer,
    /// in Unix nanoseconds.
    pub fn request_instrument(&self, request: &RequestInstrument, ts_init: u64) -> (response:
        Result<InstrumentResponse, OandaDataClientError>)
        ensures
            unique_ids(self.spec_instruments()),
            response is Err <==> forall|k: int|
                0 <= k < self.spec_instruments().len() ==> (#[trigger] self.spec_instruments()[k]).0@
                    != request.instrument_id@,
            response matches Err(e) ==> (e matches OandaDataClientError::InstrumentNotFound(id)
                && id == request.instrument_id),
            response matches Ok(r) ==> {
                &&& r.correlation_id == request.request_id
                &&& r.client_id@ == self.spec_answering_client(request.client_id)
                &&& request.client_id matches Some(id) ==> r.client_id@ == id@
                &&& request.client_id is None ==> r.client_id@ == self.spec_client_id()
                &&& r.instrument_id == request.instrument_id
                &&& exists|k: int|
                    0 <= k < self.spec_instruments().len() && (#[trigger] self.spec_instruments()[k]).0@
                        == request.instrument_id@ && r.data.same_as(self.spec_instruments()[k].1)
                &&& forall|k: int|
                    0 <= k < self.spec_instruments().len() && (#[trigger] self.spec_instruments()[k]).0@
                        == request.instrument_id@ ==> r.data.same_as(self.spec_instruments()[k].1)
                &&& r.start == spec_datetime_to_unix_nanos(request.start)
                &&& r.end == spec_datetime_to_unix_nanos(request.end)
                &&& r.ts_init == ts_init
                &&& spec_params_view(r.params) == spec_params_view(request.params)
            },
    {
        let instrument = match self.get_instrument(&request.instrument_id) {
            Some(instrument) => instrument,
            None => {
                return Err(
                    OandaDataClientError::InstrumentNotFound(request.instrument_id.clone()),
                );
            },
        };
        let client_id = match &request.client_id {
            Some(id) => id.clone(),
            None => self.client_id.clone(),
        };
        Ok(InstrumentResponse {
            correlation_id: request.request_id.clone(),
            client_id,
            instrument_id: request.instrument_id.clone(),
            data: instrument,
            start: datetime_to_unix_nanos(request.start),
            end: datetime_to_unix_nanos(request.end),
            ts_init,
            params: clone_params(&request.params),
        })
    }
}

} // verus!
