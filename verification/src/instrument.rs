use vstd::prelude::*;
use crate::guc::{auto_explain_enabled, observed, Settings};
use crate::worker::Worker;

verus! {

/// Instrumentation facilities, one bit each, as the host numbers them.
pub const INSTRUMENT_TIMER: i32 = 1;

pub const INSTRUMENT_BUFFERS: i32 = 2;

pub const INSTRUMENT_ROWS: i32 = 4;

pub const INSTRUMENT_WAL: i32 = 8;

/// The execution flag of a statement that is explained and not run.
pub const EXEC_FLAG_EXPLAIN_ONLY: i32 = 1;

/// Whether `options` asks for every bit of `facility`.
pub open spec fn has_facility(options: i32, facility: i32) -> bool {
    options & facility == facility
}

/// The facilities that an observed execution asks for: the timer where
/// timing is configured and row counts where it is not, never both; buffer
/// usage and write-ahead-log usage where they are configured.
pub open spec fn requested_facilities(settings: Settings) -> i32 {
    (if settings.log_timing {
        INSTRUMENT_TIMER
    } else {
        INSTRUMENT_ROWS
    }) | (if settings.log_buffers {
        INSTRUMENT_BUFFERS
    } else {
        0i32
    }) | (if settings.log_wal {
        INSTRUMENT_WAL
    } else {
        0i32
    })
}

/// Whether the start of an execution with the flags `eflags` asks for
/// instrumentation: the statement is observed, run-time statistics are
/// configured, and the statement is run and not only explained.
pub open spec fn instruments(settings: Settings, worker: Worker, eflags: i32) -> bool {
    &&& observed(settings, worker)
    &&& settings.log_analyze
    &&& eflags & EXEC_FLAG_EXPLAIN_ONLY == 0
}

/// The instrumentation options with which an execution is handed on, where
/// it came with `options`.
pub open spec fn instrumented_options(
    settings: Settings,
    worker: Worker,
    eflags: i32,
    options: i32,
) -> i32 {
    if instruments(settings, worker, eflags) {
        options | requested_facilities(settings)
    } else {
        options
    }
}

proof fn lemma_facility_bits(timer: i32, buffers: i32, wal: i32)
    requires
        timer == INSTRUMENT_TIMER || timer == INSTRUMENT_ROWS,
        buffers == INSTRUMENT_BUFFERS || buffers == 0,
        wal == INSTRUMENT_WAL || wal == 0,
    ensures
        has_facility(timer | buffers | wal, INSTRUMENT_TIMER) <==> timer == INSTRUMENT_TIMER,
        has_facility(timer | buffers | wal, INSTRUMENT_ROWS) <==> timer == INSTRUMENT_ROWS,
        (timer | buffers | wal) & INSTRUMENT_ROWS == 0 <==> timer == INSTRUMENT_TIMER,
        (timer | buffers | wal) & INSTRUMENT_TIMER == 0 <==> timer == INSTRUMENT_ROWS,
        has_facility(timer | buffers | wal, INSTRUMENT_BUFFERS) <==> buffers == INSTRUMENT_BUFFERS,
        has_facility(timer | buffers | wal, INSTRUMENT_WAL) <==> wal == INSTRUMENT_WAL,
{
    assert(((timer | buffers | wal) & 1i32 == 1i32 <==> timer == 1i32) && ((timer | buffers | wal)
        & 4i32 == 4i32 <==> timer == 4i32) && ((timer | buffers | wal) & 4i32 == 0i32 <==> timer
        == 1i32) && ((timer | buffers | wal) & 1i32 == 0i32 <==> timer == 4i32) && ((timer
        | buffers | wal) & 2i32 == 2i32 <==> buffers == 2i32) && ((timer | buffers | wal) & 8i32
        == 8i32 <==> wal == 8i32)) by (bit_vector)
        requires
            timer == 1i32 || timer == 4i32,
            buffers == 2i32 || buffers == 0i32,
            wal == 8i32 || wal == 0i32,
    ;
}

/// The request holds the timer exactly where timing is configured and row
/// counts exactly where it is not, so never both and never neither; buffer
/// usage and write-ahead-log usage exactly where each is configured.
pub proof fn lemma_requested_facilities(settings: Settings)
    ensures
        has_facility(requested_facilities(settings), INSTRUMENT_TIMER) <==> settings.log_timing,
        has_facility(requested_facilities(settings), INSTRUMENT_ROWS) <==> !settings.log_timing,
        settings.log_timing ==> requested_facilities(settings) & INSTRUMENT_ROWS == 0,
        !settings.log_timing ==> requested_facilities(settings) & INSTRUMENT_TIMER == 0,
        has_facility(requested_facilities(settings), INSTRUMENT_BUFFERS) <==> settings.log_buffers,
        has_facility(requested_facilities(settings), INSTRUMENT_WAL) <==> settings.log_wal,
        requested_facilities(settings) != 0,
{
    let timer = if settings.log_timing {
        INSTRUMENT_TIMER
    } else {
        INSTRUMENT_ROWS
    };
    let buffers = if settings.log_buffers {
        INSTRUMENT_BUFFERS
    } else {
        0i32
    };
    let wal = if settings.log_wal {
        INSTRUMENT_WAL
    } else {
        0i32
    };
    lemma_facility_bits(timer, buffers, wal);
    assert(0i32 & 1i32 == 0i32 && 0i32 & 4i32 == 0i32) by (bit_vector);
}

/// Whatever facility an execution came with, it is handed on with: the
/// hook adds to the options and takes nothing away.
pub proof fn lemma_instrumentation_keeps_facilities(
    settings: Settings,
    worker: Worker,
    eflags: i32,
    options: i32,
    facility: i32,
)
    requires
        has_facility(options, facility),
    ensures
        has_facility(instrumented_options(settings, worker, eflags, options), facility),
{
    let request = requested_facilities(settings);
    assert(options & facility == facility ==> (options | request) & facility == facility)
        by (bit_vector);
}

/// An execution that asks for instrumentation is handed on with options
/// that are not empty, and with the timer or with row counts as timing is
/// configured.
pub proof fn lemma_instrumented_options_hold_request(
    settings: Settings,
    worker: Worker,
    eflags: i32,
    options: i32,
)
    requires
        instruments(settings, worker, eflags),
    ensures
        instrumented_options(settings, worker, eflags, options) != 0,
        settings.log_timing ==> has_facility(
            instrumented_options(settings, worker, eflags, options),
            INSTRUMENT_TIMER,
        ),
        !settings.log_timing ==> has_facility(
            instrumented_options(settings, worker, eflags, options),
            INSTRUMENT_ROWS,
        ),
{
    let request = requested_facilities(settings);
    lemma_requested_facilities(settings);
    assert(request & 1i32 == 1i32 ==> (options | request) & 1i32 == 1i32 && (options | request)
        != 0i32) by (bit_vector);
    assert(request & 4i32 == 4i32 ==> (options | request) & 4i32 == 4i32 && (options | request)
        != 0i32) by (bit_vector);
}

/// Computes the facilities that an observed execution asks for.
pub fn instrument_request(settings: &Settings) -> (bits: i32)
    ensures
        bits == requested_facilities(*settings),
        has_facility(bits, INSTRUMENT_TIMER) <==> settings.log_timing,
        has_facility(bits, INSTRUMENT_ROWS) <==> !settings.log_timing,
        settings.log_timing ==> bits & INSTRUMENT_ROWS == 0,
        !settings.log_timing ==> bits & INSTRUMENT_TIMER == 0,
        has_facility(bits, INSTRUMENT_BUFFERS) <==> settings.log_buffers,
        has_facility(bits, INSTRUMENT_WAL) <==> settings.log_wal,
{
    let timer: i32 = if settings.log_timing {
        INSTRUMENT_TIMER
    } else {
        INSTRUMENT_ROWS
    };
    let buffers: i32 = if settings.log_buffers {
        INSTRUMENT_BUFFERS
    } else {
        0
    };
    let wal: i32 = if settings.log_wal {
        INSTRUMENT_WAL
    } else {
        0
    };
    proof {
        lemma_requested_facilities(*settings);
    }
    timer | buffers | wal
}

/// Computes the instrumentation options with which the `start` hook hands
/// an execution on. Bits that others have set stay set.
pub fn start_instrument_options(
    settings: &Settings,
    worker: &Worker,
    eflags: i32,
    options: i32,
) -> (updated: i32)
    ensures
        updated == instrumented_options(*settings, *worker, eflags, options),
        updated & options == options,
        !instruments(*settings, *worker, eflags) ==> updated == options,
        instruments(*settings, *worker, eflags) && settings.log_timing ==> has_facility(
            updated,
            INSTRUMENT_TIMER,
        ),
        instruments(*settings, *worker, eflags) && !settings.log_timing ==> has_facility(
            updated,
            INSTRUMENT_ROWS,
        ),
{
    if auto_explain_enabled(settings, worker) && settings.log_analyze && (eflags
        & EXEC_FLAG_EXPLAIN_ONLY) == 0 {
        let request = instrument_request(settings);
        proof {
            lemma_instrumented_options_hold_request(*settings, *worker, eflags, options);
        }
        assert((options | request) & options == options) by (bit_vector);
        options | request
    } else {
        assert(options & options == options) by (bit_vector);
        options
    }
}

} // verus!
