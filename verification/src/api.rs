//! The entry point of the native library: the table of its functions, which
//! is opened once in a process and closed once when the process ends, and the
//! global values that are read through it.

use crate::status::{raw_is_ok, QUIC_STATUS};
use vstd::prelude::*;

verus! {

/// The version of the table that is asked for.
pub const API_VERSION: u32 = 2;

/// The parameter of the share of memory that may go to retries.
pub const PARAM_GLOBAL_RETRY_MEMORY_PERCENT: u32 = 0x01000000;

/// The parameter of the performance counters.
pub const PARAM_GLOBAL_PERF_COUNTERS: u32 = 0x01000003;

/// The parameter of the TLS provider.
pub const PARAM_GLOBAL_TLS_PROVIDER: u32 = 0x0100000A;

/// The parameter of a listener's local address.
pub const PARAM_LISTENER_LOCAL_ADDRESS: u32 = 0x04000000;

/// The parameter of a connection's local address.
pub const PARAM_CONN_LOCAL_ADDRESS: u32 = 0x05000001;

/// The parameter of a connection's remote address.
pub const PARAM_CONN_REMOTE_ADDRESS: u32 = 0x05000002;

/// The parameter of a connection's statistics.
pub const PARAM_CONN_STATISTICS: u32 = 0x05000005;

/// The parameter of a connection's statistics, second version.
pub const PARAM_CONN_STATISTICS_V2: u32 = 0x05000016;

/// The address of the native table of functions.
pub type ApiTable = usize;

/// The state of the native entry point in this process: the table, once it
/// is open. A process holds one value of this type. The table is opened when
/// it is first needed and never again; it is closed when the process ends,
/// and only if it was opened.
#[derive(Debug)]
pub struct Api {
    table: ApiTable,
}

impl Api {
    /// The address of the table, or null while it is not open.
    pub closed spec fn table(&self) -> ApiTable {
        self.table
    }

    /// Whether the table is open.
    pub open spec fn is_open(&self) -> bool {
        self.table() != 0
    }

    /// The state at the start of a process: the table is not open.
    pub fn new() -> (api: Api)
        ensures
            !api.is_open(),
    {
        Api { table: 0 }
    }

    /// Whether the table is open.
    pub fn is_initialized(&self) -> (open: bool)
        ensures
            open == self.is_open(),
    {
        self.table != 0
    }

    /// The table, which must be open.
    pub fn ffi_ref(&self) -> (table: ApiTable)
        requires
            self.is_open(),
        ensures
            table == self.table(),
            table != 0,
    {
        self.table
    }

    /// What is due before the table is used: the version with which to make
    /// the native open call, or nothing once the table is open. With
    /// `opened`, which takes the reply, this initializes the table when it is
    /// first needed.
    pub fn once_init_api(&self) -> (version: Option<u32>)
        ensures
            version == (if self.is_open() {
                None
            } else {
                Some(API_VERSION)
            }),
    {
        if self.table != 0 {
            None
        } else {
            Some(API_VERSION)
        }
    }

    /// Takes the reply of the native open call, which must have succeeded:
    /// without the table the process cannot go on.
    pub fn opened(&mut self, status: QUIC_STATUS, table: ApiTable)
        requires
            !old(self).is_open(),
            raw_is_ok(status),
            table != 0,
        ensures
            final(self).table() == table,
            final(self).is_open(),
    {
        self.table = table;
    }

    /// Returns the table, which must be open.
    pub fn get_ffi(&self) -> (table: ApiTable)
        requires
            self.is_open(),
        ensures
            table == self.table(),
            table != 0,
    {
        self.ffi_ref()
    }

    /// What is due when the process ends: the table on which to make the
    /// native close call, or nothing where the table was never opened or is
    /// closed already. The table is not open afterwards.
    pub fn close_msquic(&mut self) -> (table: Option<ApiTable>)
        ensures
            table == (if old(self).is_open() {
                Some(old(self).table())
            } else {
                None
            }),
            !final(self).is_open(),
    {
        if self.table != 0 {
            let table = self.table;
            self.table = 0;
            Some(table)
        } else {
            None
        }
    }
}

/// The number of performance counters.
pub const PERF_COUNTER_MAX: usize = 32;

/// The index of the counter `conn_created`.
pub const PERF_COUNTER_CONN_CREATED: usize = 0;

/// The index of the counter `conn_handshake_fail`.
pub const PERF_COUNTER_CONN_HANDSHAKE_FAIL: usize = 1;

/// The index of the counter `conn_app_reject`.
pub const PERF_COUNTER_CONN_APP_REJECT: usize = 2;

/// The index of the counter `conn_resumed`.
pub const PERF_COUNTER_CONN_RESUMED: usize = 3;

/// The index of the counter `conn_active`.
pub const PERF_COUNTER_CONN_ACTIVE: usize = 4;

/// The index of the counter `conn_connected`.
pub const PERF_COUNTER_CONN_CONNECTED: usize = 5;

/// The index of the counter `conn_protocol_errors`.
pub const PERF_COUNTER_CONN_PROTOCOL_ERRORS: usize = 6;

/// The index of the counter `conn_no_alpn`.
pub const PERF_COUNTER_CONN_NO_ALPN: usize = 7;

/// The index of the counter `strm_active`.
pub const PERF_COUNTER_STRM_ACTIVE: usize = 8;

/// The index of the counter `pkts_suspected_lost`.
pub const PERF_COUNTER_PKTS_SUSPECTED_LOST: usize = 9;

/// The index of the counter `pkts_dropped`.
pub const PERF_COUNTER_PKTS_DROPPED: usize = 10;

/// The index of the counter `pkts_decryption_fail`.
pub const PERF_COUNTER_PKTS_DECRYPTION_FAIL: usize = 11;

/// The index of the counter `udp_recv`.
pub const PERF_COUNTER_UDP_RECV: usize = 12;

/// The index of the counter `udp_send`.
pub const PERF_COUNTER_UDP_SEND: usize = 13;

/// The index of the counter `udp_recv_bytes`.
pub const PERF_COUNTER_UDP_RECV_BYTES: usize = 14;

/// The index of the counter `udp_send_bytes`.
pub const PERF_COUNTER_UDP_SEND_BYTES: usize = 15;

/// The index of the counter `udp_recv_events`.
pub const PERF_COUNTER_UDP_RECV_EVENTS: usize = 16;

/// The index of the counter `udp_send_calls`.
pub const PERF_COUNTER_UDP_SEND_CALLS: usize = 17;

/// The index of the counter `app_send_bytes`.
pub const PERF_COUNTER_APP_SEND_BYTES: usize = 18;

/// The index of the counter `app_recv_bytes`.
pub const PERF_COUNTER_APP_RECV_BYTES: usize = 19;

/// The index of the counter `conn_queue_depth`.
pub const PERF_COUNTER_CONN_QUEUE_DEPTH: usize = 20;

/// The index of the counter `conn_oper_queue_depth`.
pub const PERF_COUNTER_CONN_OPER_QUEUE_DEPTH: usize = 21;

/// The index of the counter `conn_oper_queued`.
pub const PERF_COUNTER_CONN_OPER_QUEUED: usize = 22;

/// The index of the counter `conn_oper_completed`.
pub const PERF_COUNTER_CONN_OPER_COMPLETED: usize = 23;

/// The index of the counter `work_oper_queue_depth`.
pub const PERF_COUNTER_WORK_OPER_QUEUE_DEPTH: usize = 24;

/// The index of the counter `work_oper_queued`.
pub const PERF_COUNTER_WORK_OPER_QUEUED: usize = 25;

/// The index of the counter `work_oper_completed`.
pub const PERF_COUNTER_WORK_OPER_COMPLETED: usize = 26;

/// The index of the counter `path_validated`.
pub const PERF_COUNTER_PATH_VALIDATED: usize = 27;

/// The index of the counter `path_failure`.
pub const PERF_COUNTER_PATH_FAILURE: usize = 28;

/// The index of the counter `send_stateless_reset`.
pub const PERF_COUNTER_SEND_STATELESS_RESET: usize = 29;

/// The index of the counter `send_stateless_retry`.
pub const PERF_COUNTER_SEND_STATELESS_RETRY: usize = 30;

/// The index of the counter `conn_load_reject`.
pub const PERF_COUNTER_CONN_LOAD_REJECT: usize = 31;

/// The performance counters as the native library hands them out: one value
/// for each index.
pub type QuicPerformanceCountersParam = [i64; 32];

/// A helper struct for accessing performance counters.
#[derive(Debug, Clone, Copy, PartialEq, Eq)]
pub struct QuicPerformanceCounters {
    pub conn_created: i64,
    pub conn_handshake_fail: i64,
    pub conn_app_reject: i64,
    pub conn_resumed: i64,
    pub conn_active: i64,
    pub conn_connected: i64,
    pub conn_protocol_errors: i64,
    pub conn_no_alpn: i64,
    pub strm_active: i64,
    pub pkts_suspected_lost: i64,
    pub pkts_dropped: i64,
    pub pkts_decryption_fail: i64,
    pub udp_recv: i64,
    pub udp_send: i64,
    pub udp_recv_bytes: i64,
    pub udp_send_bytes: i64,
    pub udp_recv_events: i64,
    pub udp_send_calls: i64,
    pub app_send_bytes: i64,
    pub app_recv_bytes: i64,
    pub conn_queue_depth: i64,
    pub conn_oper_queue_depth: i64,
    pub conn_oper_queued: i64,
    pub conn_oper_completed: i64,
    pub work_oper_queue_depth: i64,
    pub work_oper_queued: i64,
    pub work_oper_completed: i64,
    pub path_validated: i64,
    pub path_failure: i64,
    pub send_stateless_reset: i64,
    pub send_stateless_retry: i64,
    pub conn_load_reject: i64,
}

impl QuicPerformanceCounters {
    /// The counters by name, each taken from its index in `values`.
    pub open spec fn of(values: Seq<i64>) -> QuicPerformanceCounters {
        QuicPerformanceCounters {
            conn_created: values[PERF_COUNTER_CONN_CREATED as int],
            conn_handshake_fail: values[PERF_COUNTER_CONN_HANDSHAKE_FAIL as int],
            conn_app_reject: values[PERF_COUNTER_CONN_APP_REJECT as int],
            conn_resumed: values[PERF_COUNTER_CONN_RESUMED as int],
            conn_active: values[PERF_COUNTER_CONN_ACTIVE as int],
            conn_connected: values[PERF_COUNTER_CONN_CONNECTED as int],
            conn_protocol_errors: values[PERF_COUNTER_CONN_PROTOCOL_ERRORS as int],
            conn_no_alpn: values[PERF_COUNTER_CONN_NO_ALPN as int],
            strm_active: values[PERF_COUNTER_STRM_ACTIVE as int],
            pkts_suspected_lost: values[PERF_COUNTER_PKTS_SUSPECTED_LOST as int],
            pkts_dropped: values[PERF_COUNTER_PKTS_DROPPED as int],
            pkts_decryption_fail: values[PERF_COUNTER_PKTS_DECRYPTION_FAIL as int],
            udp_recv: values[PERF_COUNTER_UDP_RECV as int],
            udp_send: values[PERF_COUNTER_UDP_SEND as int],
            udp_recv_bytes: values[PERF_COUNTER_UDP_RECV_BYTES as int],
            udp_send_bytes: values[PERF_COUNTER_UDP_SEND_BYTES as int],
            udp_recv_events: values[PERF_COUNTER_UDP_RECV_EVENTS as int],
            udp_send_calls: values[PERF_COUNTER_UDP_SEND_CALLS as int],
            app_send_bytes: values[PERF_COUNTER_APP_SEND_BYTES as int],
            app_recv_bytes: values[PERF_COUNTER_APP_RECV_BYTES as int],
            conn_queue_depth: values[PERF_COUNTER_CONN_QUEUE_DEPTH as int],
            conn_oper_queue_depth: values[PERF_COUNTER_CONN_OPER_QUEUE_DEPTH as int],
            conn_oper_queued: values[PERF_COUNTER_CONN_OPER_QUEUED as int],
            conn_oper_completed: values[PERF_COUNTER_CONN_OPER_COMPLETED as int],
            work_oper_queue_depth: values[PERF_COUNTER_WORK_OPER_QUEUE_DEPTH as int],
            work_oper_queued: values[PERF_COUNTER_WORK_OPER_QUEUED as int],
            work_oper_completed: values[PERF_COUNTER_WORK_OPER_COMPLETED as int],
            path_validated: values[PERF_COUNTER_PATH_VALIDATED as int],
            path_failure: values[PERF_COUNTER_PATH_FAILURE as int],
            send_stateless_reset: values[PERF_COUNTER_SEND_STATELESS_RESET as int],
            send_stateless_retry: values[PERF_COUNTER_SEND_STATELESS_RETRY as int],
            conn_load_reject: values[PERF_COUNTER_CONN_LOAD_REJECT as int],
        }
    }

    /// Names the counters of `value`.
    pub fn from(value: QuicPerformanceCountersParam) -> (counters: Self)
        ensures
            counters == QuicPerformanceCounters::of(value@),
    {
        QuicPerformanceCounters {
            conn_created: value[PERF_COUNTER_CONN_CREATED],
            conn_handshake_fail: value[PERF_COUNTER_CONN_HANDSHAKE_FAIL],
            conn_app_reject: value[PERF_COUNTER_CONN_APP_REJECT],
            conn_resumed: value[PERF_COUNTER_CONN_RESUMED],
            conn_active: value[PERF_COUNTER_CONN_ACTIVE],
            conn_connected: value[PERF_COUNTER_CONN_CONNECTED],
            conn_protocol_errors: value[PERF_COUNTER_CONN_PROTOCOL_ERRORS],
            conn_no_alpn: value[PERF_COUNTER_CONN_NO_ALPN],
            strm_active: value[PERF_COUNTER_STRM_ACTIVE],
            pkts_suspected_lost: value[PERF_COUNTER_PKTS_SUSPECTED_LOST],
            pkts_dropped: value[PERF_COUNTER_PKTS_DROPPED],
            pkts_decryption_fail: value[PERF_COUNTER_PKTS_DECRYPTION_FAIL],
            udp_recv: value[PERF_COUNTER_UDP_RECV],
            udp_send: value[PERF_COUNTER_UDP_SEND],
            udp_recv_bytes: value[PERF_COUNTER_UDP_RECV_BYTES],
            udp_send_bytes: value[PERF_COUNTER_UDP_SEND_BYTES],
            udp_recv_events: value[PERF_COUNTER_UDP_RECV_EVENTS],
            udp_send_calls: value[PERF_COUNTER_UDP_SEND_CALLS],
            app_send_bytes: value[PERF_COUNTER_APP_SEND_BYTES],
            app_recv_bytes: value[PERF_COUNTER_APP_RECV_BYTES],
            conn_queue_depth: value[PERF_COUNTER_CONN_QUEUE_DEPTH],
            conn_oper_queue_depth: value[PERF_COUNTER_CONN_OPER_QUEUE_DEPTH],
            conn_oper_queued: value[PERF_COUNTER_CONN_OPER_QUEUED],
            conn_oper_completed: value[PERF_COUNTER_CONN_OPER_COMPLETED],
            work_oper_queue_depth: value[PERF_COUNTER_WORK_OPER_QUEUE_DEPTH],
            work_oper_queued: value[PERF_COUNTER_WORK_OPER_QUEUED],
            work_oper_completed: value[PERF_COUNTER_WORK_OPER_COMPLETED],
            path_validated: value[PERF_COUNTER_PATH_VALIDATED],
            path_failure: value[PERF_COUNTER_PATH_FAILURE],
            send_stateless_reset: value[PERF_COUNTER_SEND_STATELESS_RESET],
            send_stateless_retry: value[PERF_COUNTER_SEND_STATELESS_RETRY],
            conn_load_reject: value[PERF_COUNTER_CONN_LOAD_REJECT],
        }
    }
}

} // verus!
