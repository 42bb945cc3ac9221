use vstd::prelude::*;

verus! {

/// Failures of the registry's operations.
#[derive(Debug, Clone, Copy, PartialEq, Eq, Structural)]
pub enum ContractError {
    /// The addressed slot or record was never written.
    NotFound,
    /// A record already stands under the nickname being registered.
    AlreadyExists,
    /// The caller is not the owner recorded at initialization.
    Unauthorized,
}

impl ContractError {
    /// The message a caller sees for this failure.
    pub fn message(&self) -> (r: String)
        ensures
            *self == ContractError::AlreadyExists ==> r@ == "Nickname is already taken"@,
            *self == ContractError::Unauthorized ==> r@ == "Unauthorized"@,
            *self == ContractError::NotFound ==> r@ == "Not found"@,
    {
        match self {
            ContractError::NotFound => String::from_str("Not found"),
            ContractError::AlreadyExists => String::from_str("Nickname is already taken"),
            ContractError::Unauthorized => String::from_str("Unauthorized"),
        }
    }
}

} // verus!
