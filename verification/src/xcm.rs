//! Cross-Consensus Message format: the error type, the outcome of an
//! execution attempt and the values that routing passes along.

use vstd::prelude::*;
use core::marker::PhantomData;

verus! {

/// Local weight type; execution time in picoseconds.
pub type Weight = u64;

/// One step of a location's interior path.
#[derive(Clone, PartialEq, Eq, Debug)]
pub enum Junction {
    /// A parachain, by its index.
    Parachain(u32),
    /// A pallet of a runtime, by its index.
    PalletInstance(u8),
    /// An item of a consensus system, by a general index.
    GeneralIndex(u128),
    /// An item of a consensus system, by a general key.
    GeneralKey(Vec<u8>),
}

/// A relative location: first go up `parents` levels, then walk down `interior`.
#[derive(Clone, PartialEq, Eq, Debug)]
pub struct MultiLocation {
    pub parents: u8,
    pub interior: Vec<Junction>,
}

impl MultiLocation {
    /// The number of levels that the location goes up before it walks down.
    pub fn parent_count(&self) -> (n: u8)
        ensures
            n == self.parents,
    {
        self.parents
    }

    /// The number of junctions of the interior path.
    pub fn interior_len(&self) -> (n: usize)
        ensures
            n == self.interior@.len(),
    {
        self.interior.len()
    }
}

/// A cross-consensus message whose transacted calls are of type `Call`,
/// carried in its encoded form: routing hands it on and never looks inside.
#[derive(PartialEq, Eq, Debug)]
pub struct Xcm<Call> {
    pub encoded: Vec<u8>,
    pub call: PhantomData<Call>,
}

impl<Call> Xcm<Call> {
    /// The message with the given encoding.
    pub fn new(encoded: Vec<u8>) -> (m: Self)
        ensures
            m.encoded == encoded,
    {
        Xcm { encoded, call: PhantomData }
    }
}

impl<Call> Clone for Xcm<Call> {
    fn clone(&self) -> (m: Self)
        ensures
            m.encoded@ == self.encoded@,
    {
        Xcm { encoded: self.encoded.clone(), call: PhantomData }
    }
}

/// A call in its encoded form, with the decoded call once it has been decoded.
#[derive(Clone, PartialEq, Eq, Debug)]
pub struct DoubleEncoded<T> {
    pub encoded: Vec<u8>,
    pub decoded: Option<T>,
}

/// An asset, in its encoded form.
#[derive(Clone, PartialEq, Eq, Debug)]
pub struct MultiAsset {
    pub encoded: Vec<u8>,
}

/// A collection of assets, in its encoded form.
#[derive(Clone, PartialEq, Eq, Debug)]
pub struct MultiAssets {
    pub encoded: Vec<u8>,
}

/// A definite or wildcard selection of assets, in its encoded form.
#[derive(Clone, PartialEq, Eq, Debug)]
pub struct MultiAssetFilter {
    pub encoded: Vec<u8>,
}

/// An order that a message carries for its holding register, in its encoded form.
#[derive(PartialEq, Eq, Debug)]
pub struct Order<Call> {
    pub encoded: Vec<u8>,
    pub call: PhantomData<Call>,
}

impl<Call> Clone for Order<Call> {
    fn clone(&self) -> (o: Self)
        ensures
            o.encoded@ == self.encoded@,
    {
        Order { encoded: self.encoded.clone(), call: PhantomData }
    }
}

/// The response to a query, in its encoded form.
#[derive(Clone, PartialEq, Eq, Debug)]
pub struct Response {
    pub encoded: Vec<u8>,
}

/// The kind of origin that a transacted call is dispatched from.
#[derive(Clone, Copy, PartialEq, Eq, Debug)]
pub enum OriginKind {
    /// The native origin of the consensus system that the message came from.
    Native,
    /// The account that the message's origin location converts to.
    SovereignAccount,
    /// The super-user origin.
    Superuser,
    /// The origin that stands for the message's origin location itself.
    Xcm,
}

#[derive(Clone, PartialEq, Eq, Debug)]
pub enum Error {
    Undefined,
    /// An arithmetic overflow happened.
    Overflow,
    /// The operation is intentionally unsupported.
    Unimplemented,
    UnhandledXcmVersion,
    /// The implementation does not handle a given XCM.
    UnhandledXcmMessage,
    /// The implementation does not handle an effect present in an XCM.
    UnhandledEffect,
    EscalationOfPrivilege,
    UntrustedReserveLocation,
    UntrustedTeleportLocation,
    DestinationBufferOverflow,
    /// The message and destination was recognized as being reachable but the operation could not be completed.
    /// A human-readable explanation of the specific issue is provided.
    SendFailed(&'static str),
    /// The message and destination combination was not recognized as being reachable.
    CannotReachDestination(MultiLocation, Xcm<()>),
    MultiLocationFull,
    FailedToDecode,
    BadOrigin,
    ExceedsMaxMessageSize,
    /// An asset transaction (like withdraw or deposit) failed.
    FailedToTransactAsset(&'static str),
    /// Execution of the XCM would potentially result in a greater weight used than the pre-specified
    /// weight limit. The amount that is potentially required is the parameter.
    WeightLimitReached(Weight),
    /// An asset wildcard was passed where it was not expected.
    Wildcard,
    /// The message specified an optional weight limit and the weight required for processing is too great.
    TooMuchWeightRequired,
    /// The fees specified by the XCM message were not found in the holding register.
    NotHoldingFees,
    /// The weight of an XCM message is not computable ahead of execution.
    WeightNotComputable,
    /// The XCM did not pass the barrier condition for execution.
    Barrier,
    /// It is not possible for a location to have an asset be withdrawn or transferred from its ownership.
    NotWithdrawable,
    /// The consensus system cannot deposit an asset under the ownership of a particular location.
    LocationCannotHold,
    /// The assets given to purchase weight are insufficient for the weight desired.
    TooExpensive,
    /// The given asset is not handled.
    AssetNotFound,
    /// The given message cannot be translated into a format that the destination can be expected to interpret.
    DestinationUnsupported,
    /// `execute_xcm` has been called too many times recursively.
    RecursionLimitReached,
}

impl From<()> for Error {
    fn from(u: ()) -> (e: Self) {
        Error::Undefined
    }
}

impl vstd::std_specs::convert::FromSpecImpl<()> for Error {
    open spec fn obeys_from_spec() -> bool {
        true
    }

    open spec fn from_spec(v: ()) -> Self {
        Error::Undefined
    }
}

/// The result of an operation that gives back nothing on success.
pub type XcmResult = Result<(), Error>;

/// Outcome of an XCM execution.
#[derive(Clone, PartialEq, Eq, Debug)]
pub enum Outcome {
    /// Execution completed successfully; given weight was used.
    Complete(Weight),
    /// Execution started, but did not complete successfully due to the given error; given weight was used.
    Incomplete(Weight, Error),
    /// Execution did not start due to the given error.
    Error(Error),
}

impl Outcome {
    /// `Ok` exactly when the execution completed; otherwise its error.
    pub open spec fn complete_result(self) -> XcmResult {
        match self {
            Outcome::Complete(_) => Ok(()),
            Outcome::Incomplete(_, e) => Err(e),
            Outcome::Error(e) => Err(e),
        }
    }

    /// The weight used whenever execution started; the error when it did not.
    pub open spec fn execution_result(self) -> Result<Weight, Error> {
        match self {
            Outcome::Complete(w) => Ok(w),
            Outcome::Incomplete(w, _) => Ok(w),
            Outcome::Error(e) => Err(e),
        }
    }

    /// The weight that the attempt used: none when execution did not start.
    pub open spec fn used_weight(self) -> Weight {
        match self {
            Outcome::Complete(w) => w,
            Outcome::Incomplete(w, _) => w,
            Outcome::Error(_) => 0,
        }
    }

    pub fn ensure_complete(self) -> (r: XcmResult)
        ensures
            r == self.complete_result(),
            r is Ok <==> self is Complete,
            self matches Outcome::Incomplete(_, e) ==> r == Err::<(), Error>(e),
            self matches Outcome::Error(e) ==> r == Err::<(), Error>(e),
    {
        match self {
            Outcome::Complete(_) => Ok(()),
            Outcome::Incomplete(_, e) => Err(e),
            Outcome::Error(e) => Err(e),
        }
    }

    pub fn ensure_execution(self) -> (r: Result<Weight, Error>)
        ensures
            r == self.execution_result(),
            r is Err <==> self is Error,
            self matches Outcome::Complete(w) ==> r == Ok::<Weight, Error>(w),
            self matches Outcome::Incomplete(w, _) ==> r == Ok::<Weight, Error>(w),
            self matches Outcome::Error(e) ==> r == Err::<Weight, Error>(e),
    {
        match self {
            Outcome::Complete(w) => Ok(w),
            Outcome::Incomplete(w, _) => Ok(w),
            Outcome::Error(e) => Err(e),
        }
    }

    /// How much weight was used by the XCM execution attempt.
    pub fn weight_used(&self) -> (w: Weight)
        ensures
            w == self.used_weight(),
            self matches Outcome::Complete(u) ==> w == u,
            self matches Outcome::Incomplete(u, _) ==> w == u,
            self is Error ==> w == 0,
    {
        match self {
            Outcome::Complete(w) => *w,
            Outcome::Incomplete(w, _) => *w,
            Outcome::Error(_) => 0,
        }
    }
}

/// What each view reports of each kind of outcome, for every weight and error:
/// only a completed execution is `Ok` for `ensure_complete`, an execution that
/// started reports its weight whatever its error, and one that never started
/// reports its error and no weight.
pub proof fn lemma_outcome_views(w: Weight, e: Error)
    ensures
        Outcome::Complete(w).complete_result() == Ok::<(), Error>(()),
        Outcome::Complete(w).execution_result() == Ok::<Weight, Error>(w),
        Outcome::Complete(w).used_weight() == w,
        Outcome::Incomplete(w, e).complete_result() == Err::<(), Error>(e),
        Outcome::Incomplete(w, e).execution_result() == Ok::<Weight, Error>(w),
        Outcome::Incomplete(w, e).used_weight() == w,
        Outcome::Error(e).complete_result() == Err::<(), Error>(e),
        Outcome::Error(e).execution_result() == Err::<Weight, Error>(e),
        Outcome::Error(e).used_weight() == 0,
{
}

/// `ensure_complete` succeeds exactly on a completed execution.
pub proof fn lemma_complete_exactly_when_complete(o: Outcome)
    ensures
        o.complete_result() is Ok <==> o is Complete,
        o.execution_result() is Ok <==> !(o is Error),
{
}

/// An execution that completed has also started, and both views report the
/// same error when it did not complete without starting.
pub proof fn lemma_complete_implies_started(o: Outcome)
    ensures
        o.complete_result() is Ok ==> o.execution_result() is Ok,
        o.execution_result() is Err ==> o.complete_result() == Err::<(), Error>(
            o.execution_result()->Err_0,
        ),
{
}

/// The weight reported by `ensure_execution` is the weight used; an attempt
/// that never started used no weight.
pub proof fn lemma_execution_weight_agrees(o: Outcome)
    ensures
        o.execution_result() is Ok ==> o.execution_result() == Ok::<Weight, Error>(
            o.used_weight(),
        ),
        o.execution_result() is Err ==> o.used_weight() == 0,
{
}

} // verus!
