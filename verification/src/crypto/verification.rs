use crate::crypto::error::CryptoError;
use vstd::prelude::*;

verus! {

/// How a verification ended.
#[derive(Clone, Copy, Debug, PartialEq, Eq, Structural)]
pub enum VerificationStatus {
    NotSigned,
    SignedAndValid,
    SignedAndInvalid,
}

/// What one verification key made of a signature.
#[derive(Clone, Copy, Debug, PartialEq, Eq, Structural)]
pub enum SignatureCheck {
    /// The key validates the signature over the data and the context.
    Valid,
    /// The signature is well formed and the key does not validate it.
    Invalid(CryptoError),
    /// The input is no signature at all.
    Malformed,
}

/// What a verification is, mathematically.
pub ghost struct ResponseModel {
    pub status: VerificationStatus,
    pub data: Option<Seq<u8>>,
    pub errors: Seq<CryptoError>,
}

/// The result of a verification: the status, the recovered plaintext where
/// the call also decrypted, and the failures met on the way.
#[derive(Debug)]
pub struct VerificationResponse {
    pub verified: VerificationStatus,
    pub data: Option<Vec<u8>>,
    pub errors: Option<Vec<CryptoError>>,
}

/// The bytes of an optional byte vector.
pub open spec fn optional_bytes(data: Option<Vec<u8>>) -> Option<Seq<u8>> {
    match data {
        Some(bytes) => Some(bytes@),
        None => None,
    }
}

impl View for VerificationResponse {
    type V = ResponseModel;

    open spec fn view(&self) -> ResponseModel {
        ResponseModel {
            status: self.verified,
            data: optional_bytes(self.data),
            errors: match self.errors {
                Some(list) => list@,
                None => Seq::empty(),
            },
        }
    }
}

impl VerificationResponse {
    /// The list of errors is absent rather than empty.
    pub open spec fn well_formed(&self) -> bool {
        self.errors matches Some(list) ==> list@.len() > 0
    }
}

/// The number of checks at the head of the list that are failures.
pub open spec fn leading_failures(checks: Seq<SignatureCheck>) -> nat
    decreases checks.len(),
{
    if checks.len() > 0 && checks[0] is Invalid {
        1 + leading_failures(checks.drop_first())
    } else {
        0
    }
}

/// What a run of checks, one per verification key in the order tried, says
/// of a signature that is there. The checks count up to the first that is
/// not a failure. If that one is malformed input, the verification is in
/// error. If it is valid, the signature is valid; if there is none, no key
/// validated the signature and it is invalid. The failures before it are the
/// errors either way.
pub open spec fn verdict(checks: Seq<SignatureCheck>, data: Option<Seq<u8>>) -> Result<
    ResponseModel,
    CryptoError,
> {
    let n = leading_failures(checks) as int;
    if n < checks.len() && checks[n] is Malformed {
        Err(CryptoError::Signature)
    } else {
        Ok(
            ResponseModel {
                status: if n < checks.len() {
                    VerificationStatus::SignedAndValid
                } else {
                    VerificationStatus::SignedAndInvalid
                },
                data,
                errors: Seq::new(n as nat, |i: int| checks[i]->Invalid_0),
            },
        )
    }
}

/// The same checks with malformed input counted as a failure of the key.
pub open spec fn lenient(checks: Seq<SignatureCheck>) -> Seq<SignatureCheck> {
    checks.map_values(
        |c: SignatureCheck|
            if c is Malformed {
                SignatureCheck::Invalid(CryptoError::Signature)
            } else {
                c
            },
    )
}

/// The verification of data that carries no signature.
pub open spec fn not_signed(data: Option<Seq<u8>>) -> ResponseModel {
    ResponseModel { status: VerificationStatus::NotSigned, data, errors: Seq::empty() }
}

/// The leading failures are within the list, each of them is a failure, and
/// the check after them, if there is one, is none.
pub proof fn lemma_leading_failures(checks: Seq<SignatureCheck>)
    ensures
        leading_failures(checks) <= checks.len(),
        forall|i: int| 0 <= i < leading_failures(checks) ==> (#[trigger] checks[i]) is Invalid,
        leading_failures(checks) < checks.len() ==> !(checks[leading_failures(checks) as int]
            is Invalid),
    decreases checks.len(),
{
    if checks.len() > 0 && checks[0] is Invalid {
        let rest = checks.drop_first();
        lemma_leading_failures(rest);
        assert forall|i: int| 0 <= i < leading_failures(checks) implies (#[trigger] checks[i])
            is Invalid by {
            if i > 0 {
                assert(checks[i] == rest[i - 1]);
            }
        }
        if leading_failures(checks) < checks.len() {
            assert(checks[leading_failures(checks) as int] == rest[leading_failures(rest) as int]);
        }
    }
}

/// The count of leading failures is the one index up to which all checks
/// are failures and at which, if it is in the list, the check is none.
pub proof fn lemma_leading_failures_is(checks: Seq<SignatureCheck>, n: int)
    requires
        0 <= n <= checks.len(),
        forall|i: int| 0 <= i < n ==> (#[trigger] checks[i]) is Invalid,
        n < checks.len() ==> !(checks[n] is Invalid),
    ensures
        leading_failures(checks) == n,
{
    lemma_leading_failures(checks);
    let m = leading_failures(checks) as int;
    if m < n {
        assert(checks[m] is Invalid);
    } else if n < m {
        assert(checks[n] is Invalid);
    }
}

impl VerificationResponse {
    /// The response for data that carries no signature.
    pub fn unsigned(data: Option<Vec<u8>>) -> (r: VerificationResponse)
        ensures
            r@ == not_signed(optional_bytes(data)),
            r.well_formed(),
    {
        VerificationResponse { verified: VerificationStatus::NotSigned, data, errors: None }
    }

    /// Judges a signature by the checks of the verification keys, in the
    /// order in which the keys were tried.
    pub fn assess(checks: &Vec<SignatureCheck>, data: Option<Vec<u8>>) -> (r: Result<
        VerificationResponse,
        CryptoError,
    >)
        ensures
            match r {
                Ok(response) => verdict(checks@, optional_bytes(data)) == Ok::<
                    ResponseModel,
                    CryptoError,
                >(response@) && response.well_formed(),
                Err(e) => verdict(checks@, optional_bytes(data)) == Err::<
                    ResponseModel,
                    CryptoError,
                >(e),
            },
    {
        let mut errors: Vec<CryptoError> = Vec::new();
        let n = checks.len();
        let mut i: usize = 0;
        let mut status = VerificationStatus::SignedAndInvalid;
        while i < n
            invariant_except_break
                i <= n,
                status == VerificationStatus::SignedAndInvalid,
            invariant
                n == checks.len(),
                errors.len() == i,
                forall|k: int| 0 <= k < i ==> checks@[k] == SignatureCheck::Invalid(errors@[k]),
            ensures
                i <= n,
                i < n ==> checks@[i as int] is Valid && status
                    == VerificationStatus::SignedAndValid,
                i == n ==> status == VerificationStatus::SignedAndInvalid,
            decreases n - i,
        {
            match checks[i] {
                SignatureCheck::Valid => {
                    status = VerificationStatus::SignedAndValid;
                    break ;
                },
                SignatureCheck::Invalid(e) => {
                    errors.push(e);
                },
                SignatureCheck::Malformed => {
                    proof {
                        lemma_leading_failures_is(checks@, i as int);
                    }
                    return Err(CryptoError::Signature);
                },
            }
            i += 1;
        }
        let ghost failures = errors@;
        let errors = if errors.len() == 0 {
            None
        } else {
            Some(errors)
        };
        let response = VerificationResponse { verified: status, data, errors };
        proof {
            lemma_leading_failures_is(checks@, i as int);
            assert(failures =~= Seq::new(i as nat, |k: int| checks@[k]->Invalid_0));
            assert(response@.errors =~= failures);
        }
        Ok(response)
    }
}

/// The same checks with malformed input counted as a failure of the key.
pub fn forgive(checks: &Vec<SignatureCheck>) -> (r: Vec<SignatureCheck>)
    ensures
        r@ == lenient(checks@),
{
    let mut out: Vec<SignatureCheck> = Vec::new();
    let n = checks.len();
    let mut i: usize = 0;
    while i < n
        invariant
            i <= n,
            n == checks.len(),
            out@.len() == i,
            forall|k: int| 0 <= k < i ==> out@[k] == lenient(checks@)[k],
        decreases n - i,
    {
        let check = match checks[i] {
            SignatureCheck::Malformed => SignatureCheck::Invalid(CryptoError::Signature),
            other => other,
        };
        out.push(check);
        i += 1;
    }
    assert(out@ =~= lenient(checks@));
    out
}

/// Checks without malformed input always come to a verdict.
pub proof fn lemma_lenient_verdict(checks: Seq<SignatureCheck>, data: Option<Seq<u8>>)
    ensures
        verdict(lenient(checks), data) is Ok,
{
    let l = lenient(checks);
    lemma_leading_failures(l);
    let n = leading_failures(l) as int;
    if n < l.len() {
        assert(!(l[n] is Malformed));
    }
}

impl VerificationResponse {
    /// The response of a decryption that also verified. The plaintext is
    /// returned whatever the verification came to: without a signature the
    /// status is `NotSigned`; with one, malformed input counts as a failure
    /// of the key and the checks decide between valid and invalid.
    pub fn of_plaintext(plaintext: Vec<u8>, signed: bool, checks: &Vec<SignatureCheck>) -> (r:
        VerificationResponse)
        ensures
            r.well_formed(),
            r@ == (if signed {
                verdict(lenient(checks@), Some(plaintext@))->Ok_0
            } else {
                not_signed(Some(plaintext@))
            }),
    {
        if !signed {
            return VerificationResponse::unsigned(Some(plaintext));
        }
        let forgiven = forgive(checks);
        proof {
            lemma_lenient_verdict(checks@, Some(plaintext@));
        }
        match VerificationResponse::assess(&forgiven, Some(plaintext)) {
            Ok(response) => response,
            Err(_) => vstd::pervasive::unreached(),
        }
    }
}

/// What holds of the response to a signature that is there, whatever the
/// `keys` verification keys made of it. The signature is valid or invalid,
/// never absent. Where it is invalid, every key failed and each failure is
/// among the errors. Where it is valid, the errors are the failures of the
/// keys tried before the one that validated it.
pub open spec fn judged(response: ResponseModel, keys: nat) -> bool {
    match response.status {
        VerificationStatus::NotSigned => false,
        VerificationStatus::SignedAndValid => response.errors.len() < keys,
        VerificationStatus::SignedAndInvalid => response.errors.len() == keys,
    }
}

/// The checks are those of `keys` keys tried in order up to the first
/// decisive check: there is one check per key, unless the last check made
/// stopped the run.
pub open spec fn run_of(checks: Seq<SignatureCheck>, keys: nat) -> bool {
    &&& checks.len() <= keys
    &&& checks.len() < keys ==> checks.len() > 0 && !(checks.last() is Invalid)
}

/// The verdict on a run of checks is a judged response.
pub proof fn lemma_run_is_judged(checks: Seq<SignatureCheck>, data: Option<Seq<u8>>, keys: nat)
    requires
        run_of(checks, keys),
        verdict(checks, data) is Ok,
    ensures
        judged(verdict(checks, data)->Ok_0, keys),
{
    lemma_leading_failures(checks);
    if leading_failures(checks) == checks.len() && checks.len() < keys {
        assert(checks[checks.len() - 1] is Invalid);
    }
}

/// The key at index `i` validated the signature, and every key tried before
/// it failed on a well-formed signature.
pub open spec fn validated_at(checks: Seq<SignatureCheck>, i: int) -> bool {
    &&& 0 <= i < checks.len()
    &&& checks[i] is Valid
    &&& forall|j: int| 0 <= j < i ==> (#[trigger] checks[j]) is Invalid
}

/// A signature is judged valid only where some key validated it: the first
/// key that did not fail.
pub proof fn lemma_valid_needs_key(checks: Seq<SignatureCheck>, data: Option<Seq<u8>>)
    requires
        verdict(checks, data) matches Ok(response) && response.status
            == VerificationStatus::SignedAndValid,
    ensures
        validated_at(checks, leading_failures(checks) as int),
{
    lemma_leading_failures(checks);
}

/// Where a key validated the signature after failures only, the signature is
/// judged valid, and the errors are those failures.
pub proof fn lemma_first_valid_wins(checks: Seq<SignatureCheck>, data: Option<Seq<u8>>, i: int)
    requires
        validated_at(checks, i),
    ensures
        verdict(checks, data) == Ok::<ResponseModel, CryptoError>(
            ResponseModel {
                status: VerificationStatus::SignedAndValid,
                data,
                errors: Seq::new(i as nat, |k: int| checks[k]->Invalid_0),
            },
        ),
{
    lemma_leading_failures_is(checks, i);
}

/// Where every key failed on a well-formed signature, the signature is
/// judged invalid, and each failure is among the errors.
pub proof fn lemma_no_valid_key(checks: Seq<SignatureCheck>, data: Option<Seq<u8>>)
    requires
        forall|j: int| 0 <= j < checks.len() ==> (#[trigger] checks[j]) is Invalid,
    ensures
        verdict(checks, data) == Ok::<ResponseModel, CryptoError>(
            ResponseModel {
                status: VerificationStatus::SignedAndInvalid,
                data,
                errors: Seq::new(checks.len(), |k: int| checks[k]->Invalid_0),
            },
        ),
{
    lemma_leading_failures_is(checks, checks.len() as int);
}

} // verus!
