//! The escrow vault: it holds funds for other contracts and pays them out on
//! the word of its admin or of the one operator that the admin has named.

use vstd::prelude::*;
use crate::address::Address;
use crate::effect::Effect;
use crate::error::ErrorKind;

verus! {

/// Each way in which a vault operation can fail.
#[derive(Clone, Copy, Debug, PartialEq, Eq, Structural, Hash)]
pub enum VaultError {
    AlreadyInitialized,
    NotInitialized,
    NotAdmin,
    OperatorNotConfigured,
    AmountNotPositive,
    UnauthorizedPayoutCaller,
}

impl VaultError {
    /// The class of this failure.
    pub open spec fn spec_kind(self) -> ErrorKind {
        match self {
            VaultError::AlreadyInitialized => ErrorKind::AlreadyInitialized,
            VaultError::NotInitialized | VaultError::OperatorNotConfigured => ErrorKind::InvalidState,
            VaultError::NotAdmin | VaultError::UnauthorizedPayoutCaller => ErrorKind::Unauthorized,
            VaultError::AmountNotPositive => ErrorKind::Validation,
        }
    }

    /// The class of this failure.
    #[verifier::when_used_as_spec(spec_kind)]
    pub fn kind(self) -> (k: ErrorKind)
        ensures
            k == self.spec_kind(),
    {
        match self {
            VaultError::AlreadyInitialized => ErrorKind::AlreadyInitialized,
            VaultError::NotInitialized | VaultError::OperatorNotConfigured => ErrorKind::InvalidState,
            VaultError::NotAdmin | VaultError::UnauthorizedPayoutCaller => ErrorKind::Unauthorized,
            VaultError::AmountNotPositive => ErrorKind::Validation,
        }
    }

    /// The stable text by which callers recognise this failure.
    pub open spec fn spec_message(self) -> Seq<char> {
        match self {
            VaultError::AlreadyInitialized => "already initialized"@,
            VaultError::NotInitialized => "not initialized"@,
            VaultError::NotAdmin => "only the admin can set the operator"@,
            VaultError::OperatorNotConfigured => "operator not configured"@,
            VaultError::AmountNotPositive => "amount must be positive"@,
            VaultError::UnauthorizedPayoutCaller => "unauthorized payout caller"@,
        }
    }

    /// The stable text by which callers recognise this failure.
    pub fn message(self) -> (text: &'static str)
        ensures
            text@ == self.spec_message(),
    {
        match self {
            VaultError::AlreadyInitialized => "already initialized",
            VaultError::NotInitialized => "not initialized",
            VaultError::NotAdmin => "only the admin can set the operator",
            VaultError::OperatorNotConfigured => "operator not configured",
            VaultError::AmountNotPositive => "amount must be positive",
            VaultError::UnauthorizedPayoutCaller => "unauthorized payout caller",
        }
    }
}

/// The escrow vault. It is its own model: every field is a plain value.
#[derive(Clone, Copy, Debug, PartialEq, Eq, Structural)]
pub struct ShimejiEscrowVault {
    /// The vault's own address: the funds it holds are held under it.
    pub contract: Address,
    /// `None` until the vault is initialized.
    pub admin: Option<Address>,
    /// `None` until the admin names an operator.
    pub operator: Option<Address>,
}

impl ShimejiEscrowVault {
    /// Why `caller` cannot have `amount` paid out, if so.
    pub open spec fn payout_error(self, caller: Address, amount: i128) -> Option<VaultError> {
        if amount <= 0 {
            Some(VaultError::AmountNotPositive)
        } else if self.admin is None {
            Some(VaultError::NotInitialized)
        } else if self.operator is None {
            Some(VaultError::OperatorNotConfigured)
        } else if caller != self.admin->0 && caller != self.operator->0 {
            Some(VaultError::UnauthorizedPayoutCaller)
        } else {
            None
        }
    }

    /// Why `caller` may not act as the admin, if so.
    pub open spec fn admin_error(self, caller: Address) -> Option<VaultError> {
        if self.admin is None {
            Some(VaultError::NotInitialized)
        } else if self.admin->0 != caller {
            Some(VaultError::NotAdmin)
        } else {
            None
        }
    }

    /// The vault deployed at `contract`, not yet initialized.
    pub fn new(contract: Address) -> (vault: ShimejiEscrowVault)
        ensures
            vault == (ShimejiEscrowVault { contract, admin: None, operator: None }),
    {
        ShimejiEscrowVault { contract, admin: None, operator: None }
    }

    /// Sets the admin.
    ///
    /// Fails with `AlreadyInitialized` on every call but the first.
    pub fn initialize(&mut self, admin: Address) -> (done: Result<(), VaultError>)
        ensures
            match done {
                Ok(()) => old(self).admin is None && *final(self) == (ShimejiEscrowVault {
                    admin: Some(admin),
                    ..*old(self)
                }),
                Err(e) => old(self).admin is Some && e == VaultError::AlreadyInitialized
                    && *final(self) == *old(self),
            },
    {
        if self.admin.is_some() {
            return Err(VaultError::AlreadyInitialized);
        }
        self.admin = Some(admin);
        Ok(())
    }

    /// The admin, once `caller` is known to be the admin.
    pub fn require_admin(&self, caller: Address) -> (admin: Result<Address, VaultError>)
        ensures
            match admin {
                Ok(a) => self.admin_error(caller) is None && a == caller,
                Err(e) => self.admin_error(caller) == Some(e),
            },
    {
        match self.admin {
            None => Err(VaultError::NotInitialized),
            Some(admin) => {
                if admin != caller {
                    Err(VaultError::NotAdmin)
                } else {
                    Ok(admin)
                }
            },
        }
    }

    /// The admin.
    pub fn admin(&self) -> (admin: Result<Address, VaultError>)
        ensures
            match admin {
                Ok(a) => self.admin == Some(a),
                Err(e) => self.admin is None && e == VaultError::NotInitialized,
            },
    {
        match self.admin {
            Some(admin) => Ok(admin),
            None => Err(VaultError::NotInitialized),
        }
    }

    /// Names the operator, who may order payouts besides the admin. Only the
    /// admin may do this.
    pub fn set_operator(&mut self, caller: Address, operator: Address) -> (done: Result<
        (),
        VaultError,
    >)
        ensures
            match done {
                Ok(()) => old(self).admin_error(caller) is None && *final(self)
                    == (ShimejiEscrowVault { operator: Some(operator), ..*old(self) }),
                Err(e) => old(self).admin_error(caller) == Some(e) && *final(self) == *old(self),
            },
    {
        match self.require_admin(caller) {
            Err(e) => Err(e),
            Ok(_) => {
                self.operator = Some(operator);
                Ok(())
            },
        }
    }

    /// The operator.
    pub fn operator(&self) -> (operator: Result<Address, VaultError>)
        ensures
            match operator {
                Ok(o) => self.operator == Some(o),
                Err(e) => self.operator is None && e == VaultError::OperatorNotConfigured,
            },
    {
        match self.operator {
            Some(operator) => Ok(operator),
            None => Err(VaultError::OperatorNotConfigured),
        }
    }

    /// Pays `amount` of the payment token `token_id` from the vault to `to`,
    /// on the word of `caller`. Returns the transfer to make.
    ///
    /// Fails if the amount is not positive, then if no operator is named, then
    /// if the caller is neither the admin nor the operator.
    pub fn payout_token(&self, caller: Address, token_id: Address, to: Address, amount: i128) -> (paid:
        Result<Effect, VaultError>)
        ensures
            match paid {
                Ok(effect) => {
                    &&& self.payout_error(caller, amount) is None
                    &&& effect == (Effect::TokenTransfer {
                        token: token_id,
                        from: self.contract,
                        to,
                        amount,
                    })
                },
                Err(e) => self.payout_error(caller, amount) == Some(e),
            },
    {
        if amount <= 0 {
            return Err(VaultError::AmountNotPositive);
        }
        let admin = match self.admin {
            Some(admin) => admin,
            None => {
                return Err(VaultError::NotInitialized);
            },
        };
        let operator = match self.operator() {
            Ok(operator) => operator,
            Err(e) => {
                return Err(e);
            },
        };
        if caller != admin && caller != operator {
            return Err(VaultError::UnauthorizedPayoutCaller);
        }
        Ok(Effect::TokenTransfer { token: token_id, from: self.contract, to, amount })
    }
}

/// Nobody but the admin and the operator can make the vault pay.
pub proof fn lemma_only_admin_and_operator_are_paid_out(
    vault: ShimejiEscrowVault,
    caller: Address,
    amount: i128,
)
    requires
        vault.payout_error(caller, amount) is None,
    ensures
        vault.admin == Some(caller) || vault.operator == Some(caller),
        amount > 0,
{
}

} // verus!
