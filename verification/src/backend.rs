//! The basic -> structured direction: a process-wide backend for the basic
//! facade that re-emits every call it receives as a structured event
//! against the dynamically scoped current logger.

use vstd::prelude::*;
use crate::levels::BasicLevel;
use crate::levels::log_to_slog_level;
use crate::levels::passes_threshold;
use crate::levels::spec_basic_to_struct;
use crate::levels::spec_passes_threshold;
use crate::record::BasicRecord;
use crate::record::CallSite;
use crate::record::StructRecord;

verus! {

/// Returned by a second registration attempt: the slot already holds a
/// backend, the first one stays active, and the caller decides whether to
/// ignore the conflict or abort.
#[derive(Clone, Copy, Debug, PartialEq, Eq, Structural)]
pub struct AlreadyRegisteredError;

/// The backend that forwards basic calls to the structured facade.
///
/// It performs no filtering of its own — [`enabled`](Self::enabled) always
/// answers yes; filtering is delegated entirely to the threshold recorded
/// at registration, which the facade's dispatch applies upstream.
pub struct Logger;

/// The basic facade's global backend slot together with its minimum-level
/// knob: claimed by the first successful registration, then read on every
/// call.
///
/// The embedder holds the one process-wide value of this type; concurrent
/// registration attempts are resolved by whichever claims it first.
pub struct BackendSlot {
    registered: Option<(Logger, BasicLevel)>,
}

/// How a structured event relates to the basic record it forwards: mapped
/// severity, the caller's target as tag, the call site carried over with
/// column and function name filled with their empty values (the basic
/// facade tracks neither), the message kept, and no key-value context at
/// all.
pub open spec fn spec_forwarded(record: BasicRecord, ev: StructRecord) -> bool {
    &&& ev.level == spec_basic_to_struct(record.level)
    &&& ev.tag@ == record.target@
    &&& ev.site.file@ == record.file@
    &&& ev.site.line == record.line
    &&& ev.site.column == 0
    &&& ev.site.function@ == Seq::<char>::empty()
    &&& ev.site.module@ == record.module@
    &&& ev.msg@ == record.msg@
    &&& ev.kvs@ == Seq::<crate::record::KvPair>::empty()
}

impl Logger {
    /// The basic facade asks whether a call is worth dispatching; this
    /// backend accepts unconditionally, filtering having happened upstream
    /// against the registered threshold.
    pub fn enabled(&self) -> (r: bool)
        ensures
            r,
    {
        true
    }

    /// Translate one basic record into the structured event to emit for
    /// it.
    ///
    /// The caller submits the event to the logger the scope provider hands
    /// it and discards the outcome: the basic facade has no error channel
    /// for log statements, so failures are swallowed, never propagated.
    pub fn log(&self, record: BasicRecord) -> (ev: StructRecord)
        ensures
            spec_forwarded(record, ev),
    {
        let BasicRecord { level, target, module, file, line, msg } = record;
        let mapped = log_to_slog_level(level);
        let site = CallSite { file, line, column: 0, function: String::new(), module };
        StructRecord { level: mapped, tag: target, site, msg, kvs: Vec::new() }
    }
}

impl BackendSlot {
    /// Whether a backend has been registered.
    pub closed spec fn spec_registered(&self) -> bool {
        self.registered is Some
    }

    /// The minimum severity recorded at registration.
    pub closed spec fn spec_threshold(&self) -> BasicLevel {
        (self.registered->0).1
    }

    /// The facade's slot before any registration.
    pub fn new() -> (s: BackendSlot)
        ensures
            !s.spec_registered(),
    {
        BackendSlot { registered: None }
    }

    /// The basic facade's per-call dispatch: hand the record to the
    /// registered backend, unless none is registered or the record's level
    /// falls below the registered threshold — then the backend is never
    /// invoked and no event is produced.
    pub fn dispatch(&self, record: BasicRecord) -> (ev: Option<StructRecord>)
        ensures
            ev is Some <==> self.spec_registered() && spec_passes_threshold(
                record.level,
                self.spec_threshold(),
            ),
            ev is Some ==> spec_forwarded(record, ev->0),
    {
        match &self.registered {
            None => None,
            Some((logger, threshold)) => {
                if passes_threshold(record.level, *threshold) {
                    Some(logger.log(record))
                } else {
                    None
                }
            },
        }
    }
}

/// Register the forwarding backend as the basic facade's global backend,
/// filtering below `level`.
///
/// The first registration claims the slot, records `level` as the
/// process-wide minimum severity and configures the facade's level knob to
/// match; every later attempt fails with [`AlreadyRegisteredError`] and
/// leaves the first backend, and its threshold, untouched.
pub fn init_with_level(slot: &mut BackendSlot, level: BasicLevel) -> (r: Result<
    (),
    AlreadyRegisteredError,
>)
    ensures
        r is Ok <==> !old(slot).spec_registered(),
        final(slot).spec_registered(),
        !old(slot).spec_registered() ==> final(slot).spec_threshold() == level,
        old(slot).spec_registered() ==> *final(slot) == *old(slot),
{
    match &slot.registered {
        Some(_) => Err(AlreadyRegisteredError),
        None => {
            set_global_max_level(level);
            slot.registered = Some((Logger, level));
            Ok(())
        },
    }
}

/// Register the forwarding backend with the facade's most verbose level as
/// the default threshold, so that nothing is filtered out.
pub fn init(slot: &mut BackendSlot) -> (r: Result<(), AlreadyRegisteredError>)
    ensures
        r is Ok <==> !old(slot).spec_registered(),
        final(slot).spec_registered(),
        !old(slot).spec_registered() ==> final(slot).spec_threshold() == BasicLevel::Trace,
        old(slot).spec_registered() ==> *final(slot) == *old(slot),
{
    init_with_level(slot, BasicLevel::Trace)
}

/// Relies on log::set_max_level: stores the basic facade's global maximum
/// level filter, which its dispatch layer reads to filter calls below the
/// threshold before they reach the registered backend.
#[verifier::external_body]
fn set_global_max_level(level: BasicLevel) {
    log::set_max_level(
        match level {
            BasicLevel::Trace => log::LevelFilter::Trace,
            BasicLevel::Debug => log::LevelFilter::Debug,
            BasicLevel::Info => log::LevelFilter::Info,
            BasicLevel::Warn => log::LevelFilter::Warn,
            BasicLevel::Error => log::LevelFilter::Error,
        },
    )
}

} // verus!
