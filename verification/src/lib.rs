//! Payment processing in the Strategy style: two concrete payment methods
//! (a credit card and a PayPal account) validate a charge attempt under a
//! common capability, and a dispatch context turns the outcome into the
//! human-readable line that the caller prints.

use vstd::prelude::*;

verus! {

/// The structured failure kinds of a charge attempt. Each carries a fixed
/// human-readable message, available through [`ChargeError::message`].
#[derive(Clone, Copy, Debug, PartialEq, Eq, Structural)]
pub enum ChargeError {
    /// The credit-card number field is empty.
    InvalidCard,
    /// The credit-card expiration is not the simulated current date.
    ExpiredCard,
    /// The PayPal email field is empty.
    InvalidAccount,
}

impl ChargeError {
    /// The message text carried by each failure kind.
    pub open spec fn spec_message(&self) -> Seq<char> {
        match *self {
            ChargeError::InvalidCard => "Número de tarjeta inválido."@,
            ChargeError::ExpiredCard => "La tarjeta ha expirado."@,
            ChargeError::InvalidAccount => "Cuenta de PayPal inválida."@,
        }
    }

    /// Returns the human-readable message of this failure kind.
    pub fn message(&self) -> (r: &'static str)
        ensures
            r@ == self.spec_message(),
    {
        match *self {
            ChargeError::InvalidCard => "Número de tarjeta inválido.",
            ChargeError::ExpiredCard => "La tarjeta ha expirado.",
            ChargeError::InvalidAccount => "Cuenta de PayPal inválida.",
        }
    }
}

/// The simulated "current date" against which a card's expiration is
/// compared. The comparison is an exact string equality, not date logic.
pub open spec fn spec_current_expiration() -> Seq<char> {
    "12/24"@
}

/// The common capability of every payment method: attempt to charge,
/// yielding success or a structured failure. The exec method's result is
/// pinned to the type's own `charge_outcome` specification, so a charge
/// attempt is a pure function of the method's fields.
pub trait PaymentMethod {
    /// What a charge attempt on this method returns, as a function of its
    /// fields alone.
    spec fn charge_outcome(&self) -> Result<(), ChargeError>;

    /// Attempts the charge, returning success or the failure kind.
    fn attempt_charge(&self) -> (r: Result<(), ChargeError>)
        ensures
            r == self.charge_outcome(),
    ;
}

/// A credit card: number, cardholder name, expiration in "MM/YY" form.
/// No invariant is enforced beyond the checks made during a charge attempt.
pub struct CreditCard {
    pub number: String,
    pub name: String,
    pub expiration: String,
}

impl PaymentMethod for CreditCard {
    /// An empty number is rejected as `InvalidCard`; an expiration other
    /// than the simulated current date as `ExpiredCard`; anything else
    /// succeeds. The cardholder name and the number's format are not
    /// validated.
    open spec fn charge_outcome(&self) -> Result<(), ChargeError> {
        if self.number@.len() == 0 {
            Err(ChargeError::InvalidCard)
        } else if self.expiration@ != spec_current_expiration() {
            Err(ChargeError::ExpiredCard)
        } else {
            Ok(())
        }
    }

    fn attempt_charge(&self) -> (r: Result<(), ChargeError>) {
        if self.number.as_str().is_empty() {
            Err(ChargeError::InvalidCard)
        } else if self.expiration != "12/24".to_owned() {
            Err(ChargeError::ExpiredCard)
        } else {
            Ok(())
        }
    }
}

/// A PayPal account, identified by its email address alone.
pub struct PayPalAccount {
    pub email: String,
}

impl PaymentMethod for PayPalAccount {
    /// An empty email is rejected as `InvalidAccount`; anything else
    /// succeeds. No email-format validation is performed.
    open spec fn charge_outcome(&self) -> Result<(), ChargeError> {
        if self.email@.len() == 0 {
            Err(ChargeError::InvalidAccount)
        } else {
            Ok(())
        }
    }

    fn attempt_charge(&self) -> (r: Result<(), ChargeError>) {
        if self.email.as_str().is_empty() {
            Err(ChargeError::InvalidAccount)
        } else {
            Ok(())
        }
    }
}

/// The line the dispatch context prints for a given charge outcome: a fixed
/// success message, or a generic error label followed by the failure's
/// message.
pub open spec fn spec_outcome_line(r: Result<(), ChargeError>) -> Seq<char> {
    match r {
        Ok(_) => "Pago procesado exitosamente."@,
        Err(e) => "Hubo un error al procesar el pago: "@ + e.spec_message(),
    }
}

/// Renders a charge outcome as the line the dispatch context prints.
pub fn outcome_line(r: &Result<(), ChargeError>) -> (line: String)
    ensures
        line@ == spec_outcome_line(*r),
{
    match r {
        Ok(_) => "Pago procesado exitosamente.".to_owned(),
        Err(e) => "Hubo un error al procesar el pago: ".to_owned().concat(e.message()),
    }
}

/// The dispatch context: attempts the charge on whichever payment method it
/// is given, without inspecting which concrete method that is, and returns
/// the outcome line for the caller to print.
pub fn process<M: PaymentMethod>(method: &M) -> (line: String)
    ensures
        line@ == spec_outcome_line(method.charge_outcome()),
{
    let outcome = method.attempt_charge();
    outcome_line(&outcome)
}

/// A charge attempt is idempotent: on identical inputs it yields identical
/// outcomes, whatever the payment method, since the outcome is a function
/// of the method's fields alone.
pub proof fn lemma_charge_idempotent<M: PaymentMethod>(m1: M, m2: M)
    requires
        m1 == m2,
    ensures
        m1.charge_outcome() == m2.charge_outcome(),
{
}

/// A credit card with a non-empty number and the simulated current
/// expiration is charged successfully.
pub proof fn lemma_valid_card_succeeds(card: CreditCard)
    requires
        card.number@.len() > 0,
        card.expiration@ == spec_current_expiration(),
    ensures
        card.charge_outcome() == Ok::<(), ChargeError>(()),
{
}

/// A credit card with an empty number is rejected as `InvalidCard`,
/// whatever its expiration.
pub proof fn lemma_empty_number_rejected(card: CreditCard)
    requires
        card.number@.len() == 0,
    ensures
        card.charge_outcome() == Err::<(), ChargeError>(ChargeError::InvalidCard),
{
}

/// A credit card with a non-empty number and any expiration other than the
/// simulated current one is rejected as `ExpiredCard`.
pub proof fn lemma_wrong_expiration_rejected(card: CreditCard)
    requires
        card.number@.len() > 0,
        card.expiration@ != spec_current_expiration(),
    ensures
        card.charge_outcome() == Err::<(), ChargeError>(ChargeError::ExpiredCard),
{
}

/// A PayPal account with a non-empty email is charged successfully.
pub proof fn lemma_valid_account_succeeds(account: PayPalAccount)
    requires
        account.email@.len() > 0,
    ensures
        account.charge_outcome() == Ok::<(), ChargeError>(()),
{
}

/// A PayPal account with an empty email is rejected as `InvalidAccount`.
pub proof fn lemma_empty_email_rejected(account: PayPalAccount)
    requires
        account.email@.len() == 0,
    ensures
        account.charge_outcome() == Err::<(), ChargeError>(ChargeError::InvalidAccount),
{
}

} // verus!
