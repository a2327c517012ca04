//! The property merge view: one file's unified property space.
//!
//! A view is created uninitialized and crosses, at most once, into the
//! initialized state; the crossing succeeds only when the host has resolved
//! and opened the delegate session, and it caches whatever tag set the
//! extractor produced.  Initialized, the view answers count, enumeration and
//! value queries over the unified space: every delegate property unchanged,
//! plus the one synthetic keyword property when a tag set is present.  The
//! synthetic property occupies the dedicated slot after all delegate slots
//! (the placement this implementation commits to), and is also substituted
//! for any slot where the delegate itself reports a gap.
//!
//! The delegate is an outside component: the host performs each delegate
//! call and hands its outcome to the view, and the view's answer is
//! specified for every outcome the host can report.  Queries never mutate
//! the view — each answer is a function of the view's state and the
//! query's arguments alone.

use vstd::prelude::*;

use crate::resolver::ResolveStep;
use crate::resolver::ResolverConfig;
use crate::tags::reported_tags;
use crate::tags::normalize_extraction;
use crate::tags::usable_tag_set;
use crate::tags::Tags;
use crate::HandlerError;

verus! {

/// A property key: the identity of a property set together with the
/// property's ordinal inside it.
#[derive(Clone, Copy, Debug, PartialEq, Eq, Structural)]
pub struct PropertyKey {
    pub fmtid: u128,
    pub pid: u32,
}

/// The property-set identity of the summary-information set, the home of
/// the keywords property the synthetic slot exposes.
pub const SUMMARY_INFORMATION_FMTID: u128 = 0xF29F85E0_4FF9_1068_AB91_08002B27B3D9;

/// The ordinal of the keywords property within the summary-information set.
pub const KEYWORDS_PID: u32 = 5;

/// The fixed key of the synthetic keyword property.
pub open spec fn spec_synthetic_key() -> PropertyKey {
    PropertyKey { fmtid: SUMMARY_INFORMATION_FMTID, pid: KEYWORDS_PID }
}

/// Whether `k` is the fixed synthetic key.
pub open spec fn is_synthetic_key(k: PropertyKey) -> bool {
    k == spec_synthetic_key()
}

/// A delegate reports a gap in its property space as a key with a null
/// ordinal.
pub open spec fn is_null_key(k: PropertyKey) -> bool {
    k.pid == 0
}

/// The fixed key of the synthetic keyword property.
pub fn synthetic_key() -> (k: PropertyKey)
    ensures
        k == spec_synthetic_key(),
{
    PropertyKey { fmtid: SUMMARY_INFORMATION_FMTID, pid: KEYWORDS_PID }
}

/// What the host reports about opening the delegate session.
pub enum DelegateOutcome {
    /// The delegate was activated against the file and both its
    /// property-reading and writability capabilities were obtained.
    Opened,
    /// Activation failed, or a required capability could not be obtained;
    /// carries the platform's error code.
    Failed(i32),
}

/// Where the view sends one enumeration query.
#[derive(Clone, Copy, Debug, PartialEq, Eq, Structural)]
pub enum AtStep {
    /// Ask the delegate for the key of this slot of its own space, and hand
    /// the answer to `merge_key_reply`.
    AskDelegate(u32),
    /// The slot is the dedicated synthetic slot; its key is the fixed
    /// synthetic key, and no delegate call is needed.
    GiveSynthetic,
}

/// Where one value query is answered from.
pub enum ValueSource {
    /// The synthetic keyword property: a multi-string value holding every
    /// cached tag, in extraction order.
    Synthetic(Vec<String>),
    /// Any other key: the delegate answers, and its result — or its error —
    /// is passed through unchanged.
    Delegate,
}

/// The spec-level shadow of `ValueSource`.
#[derive(PartialEq, Eq, Structural)]
pub enum ValueRoute {
    Synthetic,
    Delegate,
}

enum ViewState {
    Uninitialized,
    Initialized { tag_set: Option<Tags> },
}

/// The property merge view.
pub struct PropertyHandler {
    config: ResolverConfig,
    state: ViewState,
}

impl PropertyHandler {
    /// How this view resolves its delegate.
    pub closed spec fn config(&self) -> ResolverConfig {
        self.config
    }

    /// Whether initialization has succeeded.
    pub closed spec fn initialized(&self) -> bool {
        self.state is Initialized
    }

    /// Whether a tag set is cached, so that the synthetic property exists.
    pub closed spec fn tags_present(&self) -> bool {
        self.state matches ViewState::Initialized { tag_set: Some(_) }
    }

    /// The cached tags, in extraction order; meaningful only when present.
    pub closed spec fn tag_items(&self) -> Seq<Seq<char>> {
        match self.state {
            ViewState::Initialized { tag_set: Some(t) } => t@,
            _ => Seq::empty(),
        }
    }

    /// A cached tag set is well-formed: non-empty, every tag null-free.
    pub closed spec fn wf(&self) -> bool {
        match self.state {
            ViewState::Initialized { tag_set: Some(t) } => t.wf(),
            _ => true,
        }
    }

    /// A fresh, uninitialized view for the given resolution configuration.
    pub fn new(config: ResolverConfig) -> (h: PropertyHandler)
        ensures
            !h.initialized(),
            !h.tags_present(),
            h.config() == config,
            h.wf(),
    {
        PropertyHandler { config, state: ViewState::Uninitialized }
    }

    /// Whether initialization has succeeded.
    pub fn is_initialized(&self) -> (b: bool)
        ensures
            b == self.initialized(),
    {
        match self.state {
            ViewState::Uninitialized => false,
            ViewState::Initialized { .. } => true,
        }
    }

    /// Begins initialization for the named file: resolves the delegate under
    /// this view's configuration.  See `ResolverConfig::resolve_step`; a
    /// failure here leaves the view untouched and unusable, since only
    /// `complete_initialize` changes its state.
    pub fn resolve_step(&self, path: &str) -> (r: Result<ResolveStep, HandlerError>)
        ensures
            crate::resolver::last_dot(path@) < 0 ==> r == Err::<ResolveStep, HandlerError>(
                HandlerError::ResolutionFailure,
            ),
            crate::resolver::last_dot(path@) >= 0 ==> match self.config() {
                ResolverConfig::Mapped(t) => match crate::resolver::table_lookup(
                    t@,
                    crate::resolver::spec_extension(path@),
                ) {
                    Some(d) => r == Ok::<ResolveStep, HandlerError>(ResolveStep::OpenDelegate(d)),
                    None => r == Err::<ResolveStep, HandlerError>(HandlerError::ResolutionFailure),
                },
                ResolverConfig::Registry => r matches Ok(s) && s matches ResolveStep::ReadRegistration(p)
                    && p@ == crate::resolver::registration_path(
                    crate::resolver::spec_extension(path@),
                ),
            },
    {
        self.config.resolve_step(path)
    }

    /// Finishes initialization from what the host did outside: the outcome
    /// of opening the delegate session, and whatever the tag extractor
    /// produced (`None` for an extraction failure).
    ///
    /// The crossing is one-way and all-or-nothing.  A view already
    /// initialized refuses a second crossing unchanged; a failed session
    /// leaves the view exactly as it was, so no partial state is ever
    /// observable; a successful session initializes the view, caching the
    /// normalized tag set.  Extraction problems never fail initialization:
    /// an unusable extraction outcome only leaves the synthetic property
    /// out.
    pub fn complete_initialize(
        &mut self,
        session: DelegateOutcome,
        extracted: Option<Vec<String>>,
    ) -> (r: Result<(), HandlerError>)
        ensures
            old(self).initialized() ==> {
                &&& r == Err::<(), HandlerError>(HandlerError::AlreadyInitialized)
                &&& *final(self) == *old(self)
            },
            !old(self).initialized() ==> match session {
                DelegateOutcome::Failed(c) => {
                    &&& r == Err::<(), HandlerError>(HandlerError::ActivationFailure(c))
                    &&& *final(self) == *old(self)
                },
                DelegateOutcome::Opened => {
                    &&& r == Ok::<(), HandlerError>(())
                    &&& final(self).initialized()
                    &&& final(self).config() == old(self).config()
                    &&& final(self).tags_present() == usable_tag_set(extracted)
                    &&& usable_tag_set(extracted) ==> final(self).tag_items() == reported_tags(
                        extracted.unwrap(),
                    )
                    &&& final(self).wf()
                },
            },
    {
        if self.is_initialized() {
            return Err(HandlerError::AlreadyInitialized);
        }
        match session {
            DelegateOutcome::Failed(c) => Err(HandlerError::ActivationFailure(c)),
            DelegateOutcome::Opened => {
                let tag_set = normalize_extraction(extracted);
                self.state = ViewState::Initialized { tag_set };
                Ok(())
            },
        }
    }

    /// What `get_count` answers, as a function of the view and the
    /// delegate's own count reply.
    pub open spec fn count_result(&self, delegate_count: Result<u32, i32>) -> Result<
        u64,
        HandlerError,
    > {
        if !self.initialized() {
            Err(HandlerError::NotInitialized)
        } else {
            match delegate_count {
                Ok(n) => Ok((n + if self.tags_present() { 1int } else { 0int }) as u64),
                Err(c) => Err(HandlerError::DelegateCall(c)),
            }
        }
    }

    /// The size of the unified property space: the delegate's own count,
    /// plus one for the synthetic property when a tag set is present.
    ///
    /// `delegate_count` is the outcome of the delegate's own count call; its
    /// failure is fatal for this call and passed through — never a silent
    /// zero.
    pub fn get_count(&self, delegate_count: Result<u32, i32>) -> (r: Result<u64, HandlerError>)
        ensures
            r == self.count_result(delegate_count),
    {
        if !self.is_initialized() {
            return Err(HandlerError::NotInitialized);
        }
        match delegate_count {
            Ok(n) => {
                let extra: u64 = match &self.state {
                    ViewState::Initialized { tag_set: Some(_) } => 1,
                    _ => 0,
                };
                Ok(n as u64 + extra)
            },
            Err(c) => Err(HandlerError::DelegateCall(c)),
        }
    }

    /// What `get_at_step` answers, as a function of the view, the queried
    /// index and the delegate's own count.
    pub open spec fn at_step_result(&self, index: u32, delegate_count: u32) -> Result<
        AtStep,
        HandlerError,
    > {
        if !self.initialized() {
            Err(HandlerError::NotInitialized)
        } else if !self.tags_present() {
            Ok(AtStep::AskDelegate(index))
        } else if index < delegate_count {
            Ok(AtStep::AskDelegate(index))
        } else if index == delegate_count {
            Ok(AtStep::GiveSynthetic)
        } else {
            Ok(AtStep::AskDelegate((index - 1) as u32))
        }
    }

    /// Routes one enumeration query over the unified index space.
    ///
    /// Without a tag set the space is the delegate's own, indices unchanged.
    /// With one, the delegate's slots keep their indices, the dedicated
    /// synthetic slot follows them, and any index beyond it maps back onto
    /// the delegate's space (one past its end), so that an out-of-range
    /// query is answered by the delegate's own error, passed through.
    pub fn get_at_step(&self, index: u32, delegate_count: u32) -> (r: Result<
        AtStep,
        HandlerError,
    >)
        ensures
            r == self.at_step_result(index, delegate_count),
    {
        if !self.is_initialized() {
            return Err(HandlerError::NotInitialized);
        }
        let present = match &self.state {
            ViewState::Initialized { tag_set: Some(_) } => true,
            _ => false,
        };
        if !present {
            Ok(AtStep::AskDelegate(index))
        } else if index < delegate_count {
            Ok(AtStep::AskDelegate(index))
        } else if index == delegate_count {
            Ok(AtStep::GiveSynthetic)
        } else {
            Ok(AtStep::AskDelegate(index - 1))
        }
    }

    /// What `merge_key_reply` answers, as a function of the view and the
    /// delegate's reply.
    pub open spec fn merge_reply_result(&self, reply: Result<PropertyKey, i32>) -> Result<
        PropertyKey,
        HandlerError,
    > {
        if !self.initialized() {
            Err(HandlerError::NotInitialized)
        } else {
            match reply {
                Ok(k) => if is_null_key(k) && self.tags_present() {
                    Ok(spec_synthetic_key())
                } else {
                    Ok(k)
                },
                Err(c) => Err(HandlerError::DelegateCall(c)),
            }
        }
    }

    /// Merges the delegate's answer to one enumeration query.
    ///
    /// The delegate's key is returned exactly as reported, with one
    /// exception: a gap — a slot for which the delegate reports a null
    /// key — is covered by the fixed synthetic key when a tag set is
    /// present.  A delegate error is passed through unchanged, never
    /// swallowed.
    pub fn merge_key_reply(&self, reply: Result<PropertyKey, i32>) -> (r: Result<
        PropertyKey,
        HandlerError,
    >)
        ensures
            r == self.merge_reply_result(reply),
    {
        if !self.is_initialized() {
            return Err(HandlerError::NotInitialized);
        }
        let present = match &self.state {
            ViewState::Initialized { tag_set: Some(_) } => true,
            _ => false,
        };
        match reply {
            Ok(k) => {
                if k.pid == 0 && present {
                    Ok(synthetic_key())
                } else {
                    Ok(k)
                }
            },
            Err(c) => Err(HandlerError::DelegateCall(c)),
        }
    }

    /// Where `get_value_source` routes one value query, as a function of
    /// the view and the key.
    pub open spec fn value_routing(&self, key: PropertyKey) -> Result<ValueRoute, HandlerError> {
        if !self.initialized() {
            Err(HandlerError::NotInitialized)
        } else if is_synthetic_key(key) && self.tags_present() {
            Ok(ValueRoute::Synthetic)
        } else {
            Ok(ValueRoute::Delegate)
        }
    }

    /// Routes one value query.
    ///
    /// The fixed synthetic key, when a tag set is present, is answered here:
    /// a multi-string value holding every cached tag, in extraction order,
    /// nothing dropped and nothing reordered; on a well-formed view there is
    /// at least one tag and every tag handed out is null-free, so each fits
    /// a null-terminated platform text buffer.  Every other query — any
    /// other key, or the synthetic key without a tag set — is the delegate's
    /// to answer verbatim, errors included.
    pub fn get_value_source(&self, key: &PropertyKey) -> (r: Result<ValueSource, HandlerError>)
        ensures
            self.value_routing(*key) matches Ok(ValueRoute::Synthetic) ==> r matches Ok(v)
                && v matches ValueSource::Synthetic(items) && reported_tags(items)
                == self.tag_items(),
            (self.wf() && self.value_routing(*key) matches Ok(ValueRoute::Synthetic)) ==> (r
                matches Ok(v) && v matches ValueSource::Synthetic(items) && reported_tags(
                items,
            ).len() > 0 && (forall|i: int|
                0 <= i < reported_tags(items).len() ==> crate::tags::null_free(
                    #[trigger] reported_tags(items)[i],
                ))),
            self.value_routing(*key) == Ok::<ValueRoute, HandlerError>(ValueRoute::Delegate) ==> r
                == Ok::<ValueSource, HandlerError>(ValueSource::Delegate),
            self.value_routing(*key) matches Err(e) ==> r == Err::<ValueSource, HandlerError>(e),
    {
        match &self.state {
            ViewState::Uninitialized => Err(HandlerError::NotInitialized),
            ViewState::Initialized { tag_set } => {
                let synthetic = key.fmtid == SUMMARY_INFORMATION_FMTID && key.pid == KEYWORDS_PID;
                match tag_set {
                    Some(t) if synthetic => {
                        let items = t.items().clone();
                        proof {
                            assert(reported_tags(items) =~= self.tag_items());
                        }
                        Ok(ValueSource::Synthetic(items))
                    },
                    _ => Ok(ValueSource::Delegate),
                }
            },
        }
    }

    /// Writing a property value is never supported: the merge view is
    /// read-only regardless of the delegate's own capabilities, whatever
    /// the key, initialized or not.
    pub fn set_value(&self, key: &PropertyKey) -> (r: Result<(), HandlerError>)
        ensures
            r == Err::<(), HandlerError>(HandlerError::UnsupportedOperation),
    {
        Err(HandlerError::UnsupportedOperation)
    }

    /// Committing changes is never supported: there is never anything to
    /// commit, initialized or not.
    pub fn commit(&self) -> (r: Result<(), HandlerError>)
        ensures
            r == Err::<(), HandlerError>(HandlerError::UnsupportedOperation),
    {
        Err(HandlerError::UnsupportedOperation)
    }

    /// The writability question is answered uniformly for every key: not
    /// supported.  (Passing the question through to the delegate is the
    /// other acceptable configuration; this implementation commits to the
    /// uniform answer, as fits a read-only handler.)
    pub fn is_property_writable(&self, key: &PropertyKey) -> (r: Result<(), HandlerError>)
        ensures
            r == Err::<(), HandlerError>(HandlerError::UnsupportedOperation),
    {
        Err(HandlerError::UnsupportedOperation)
    }

    /// One enumeration query, composed: where `get_at_step` routes the
    /// index, and what `merge_key_reply` makes of the delegate's answer,
    /// under the assumption that the delegate answers the key of each of
    /// its own slots; meaningful for indices within the unified space.
    pub open spec fn unified_at(
        &self,
        index: u32,
        delegate_count: u32,
        keys: Seq<PropertyKey>,
    ) -> Result<PropertyKey, HandlerError> {
        match self.at_step_result(index, delegate_count) {
            Ok(AtStep::GiveSynthetic) => Ok(spec_synthetic_key()),
            Ok(AtStep::AskDelegate(di)) => self.merge_reply_result(Ok(keys[di as int])),
            Err(e) => Err(e),
        }
    }
}

/// With a delegate but no tag set, the merge view is transparent: the
/// unified space is exactly the delegate's own.  The count is the
/// delegate's count, every enumeration query is sent to the delegate at the
/// same index and its answer returned unchanged, every value query is the
/// delegate's to answer, and every delegate error is passed through as is.
pub proof fn lemma_transparent_without_tags(
    h: PropertyHandler,
    n: u32,
    c: i32,
    index: u32,
    delegate_count: u32,
    k: PropertyKey,
    e: i32,
    key: PropertyKey,
)
    requires
        h.initialized(),
        !h.tags_present(),
    ensures
        h.count_result(Ok(n)) == Ok::<u64, HandlerError>(n as u64),
        h.count_result(Err(c)) == Err::<u64, HandlerError>(HandlerError::DelegateCall(c)),
        h.at_step_result(index, delegate_count) == Ok::<AtStep, HandlerError>(
            AtStep::AskDelegate(index),
        ),
        h.merge_reply_result(Ok(k)) == Ok::<PropertyKey, HandlerError>(k),
        h.merge_reply_result(Err(e)) == Err::<PropertyKey, HandlerError>(
            HandlerError::DelegateCall(e),
        ),
        h.value_routing(key) == Ok::<ValueRoute, HandlerError>(ValueRoute::Delegate),
{
}

/// With a delegate and a tag set, the unified space is the delegate's space
/// plus exactly one synthetic slot: the count is the delegate's count plus
/// one; each delegate slot answers its own key unchanged; the dedicated
/// slot after them — and no other index of the space — answers the fixed
/// synthetic key; and the value query on the synthetic key is answered from
/// the cached tags.  The delegate is assumed gap-free and not to claim the
/// synthetic key itself, as a well-behaved delegate never does.
pub proof fn lemma_synthetic_slot(h: PropertyHandler, delegate_count: u32, keys: Seq<PropertyKey>)
    requires
        h.initialized(),
        h.tags_present(),
        delegate_count < u32::MAX,
        keys.len() == delegate_count,
        forall|i: int| 0 <= i < keys.len() ==> !is_null_key(#[trigger] keys[i])
            && !is_synthetic_key(keys[i]),
    ensures
        h.count_result(Ok(delegate_count)) == Ok::<u64, HandlerError>(
            (delegate_count + 1) as u64,
        ),
        forall|i: u32| i <= delegate_count ==> #[trigger] h.unified_at(i, delegate_count, keys)
            == (if i == delegate_count {
                Ok::<PropertyKey, HandlerError>(spec_synthetic_key())
            } else {
                Ok::<PropertyKey, HandlerError>(keys[i as int])
            }),
        forall|i: u32| i <= delegate_count ==> ((#[trigger] h.unified_at(i, delegate_count, keys)
            == Ok::<PropertyKey, HandlerError>(spec_synthetic_key())) <==> i == delegate_count),
        h.value_routing(spec_synthetic_key()) == Ok::<ValueRoute, HandlerError>(
            ValueRoute::Synthetic,
        ),
{
}

/// Queries are repeatable: each answer is a function of the view's state
/// and the query's arguments alone, and queries never change the state, so
/// repeated calls with the same arguments return identical results.
pub proof fn lemma_queries_deterministic(
    h1: PropertyHandler,
    h2: PropertyHandler,
    delegate_count: Result<u32, i32>,
    index: u32,
    n: u32,
    reply: Result<PropertyKey, i32>,
    key: PropertyKey,
)
    requires
        h1 == h2,
    ensures
        h1.count_result(delegate_count) == h2.count_result(delegate_count),
        h1.at_step_result(index, n) == h2.at_step_result(index, n),
        h1.merge_reply_result(reply) == h2.merge_reply_result(reply),
        h1.value_routing(key) == h2.value_routing(key),
        h1.tag_items() == h2.tag_items(),
{
}

/// An uninitialized view — fresh, or left behind by a failed
/// initialization, which changes nothing — answers no query: every one
/// fails as not initialized.
pub proof fn lemma_uninitialized_is_unusable(
    h: PropertyHandler,
    delegate_count: Result<u32, i32>,
    index: u32,
    n: u32,
    reply: Result<PropertyKey, i32>,
    key: PropertyKey,
)
    requires
        !h.initialized(),
    ensures
        h.count_result(delegate_count) == Err::<u64, HandlerError>(HandlerError::NotInitialized),
        h.at_step_result(index, n) == Err::<AtStep, HandlerError>(HandlerError::NotInitialized),
        h.merge_reply_result(reply) == Err::<PropertyKey, HandlerError>(
            HandlerError::NotInitialized,
        ),
        h.value_routing(key) == Err::<ValueRoute, HandlerError>(HandlerError::NotInitialized),
{
}

} // verus!
