//! Enumerations stored as text in the database.
use vstd::prelude::*;
use crate::text::str_equals;

verus! {

/// The RPC methods whose reverts are logged.
#[derive(Clone, Copy, Debug, PartialEq, Eq, Structural)]
pub enum Method {
    EthCall,
    EthEstimateGas,
    EthSendRawTransaction,
}

/// The role of a secondary user on an account.
#[derive(Clone, Copy, Debug, PartialEq, Eq, Structural)]
pub enum Role {
    Owner,
    Admin,
    Collaborator,
}

/// A text that names no variant of the enumeration.
#[derive(Clone, Copy, Debug, PartialEq, Eq, Structural)]
pub struct UnknownValue;

/// The text that a method is stored as.
pub open spec fn method_value(m: Method) -> Seq<char> {
    match m {
        Method::EthCall => "eth_call"@,
        Method::EthEstimateGas => "eth_estimateGas"@,
        Method::EthSendRawTransaction => "eth_sendRawTransaction"@,
    }
}

/// The method stored as `v`, if any.
pub open spec fn method_from_value(v: Seq<char>) -> Option<Method> {
    if v == "eth_call"@ {
        Some(Method::EthCall)
    } else if v == "eth_estimateGas"@ {
        Some(Method::EthEstimateGas)
    } else if v == "eth_sendRawTransaction"@ {
        Some(Method::EthSendRawTransaction)
    } else {
        None
    }
}

impl Method {
    /// The text that the method is stored as.
    pub fn to_value(&self) -> (v: &'static str)
        ensures
            v@ == method_value(*self),
    {
        match self {
            Method::EthCall => "eth_call",
            Method::EthEstimateGas => "eth_estimateGas",
            Method::EthSendRawTransaction => "eth_sendRawTransaction",
        }
    }

    /// The method stored as `v`.
    pub fn try_from_value(v: &str) -> (r: Result<Method, UnknownValue>)
        ensures
            match method_from_value(v@) {
                Some(m) => r == Ok::<Method, UnknownValue>(m),
                None => r == Err::<Method, UnknownValue>(UnknownValue),
            },
    {
        if str_equals(v, "eth_call") {
            Ok(Method::EthCall)
        } else if str_equals(v, "eth_estimateGas") {
            Ok(Method::EthEstimateGas)
        } else if str_equals(v, "eth_sendRawTransaction") {
            Ok(Method::EthSendRawTransaction)
        } else {
            Err(UnknownValue)
        }
    }
}

/// Reading back the text a method is stored as gives the same method.
pub proof fn method_value_round_trip(m: Method)
    ensures
        method_from_value(method_value(m)) == Some(m),
{
    reveal_strlit("eth_call");
    reveal_strlit("eth_estimateGas");
    reveal_strlit("eth_sendRawTransaction");
    assert("eth_call"@.len() == 8);
    assert("eth_estimateGas"@.len() == 15);
    assert("eth_sendRawTransaction"@.len() == 22);
}

/// The text that a role is stored as.
pub open spec fn role_value(r: Role) -> Seq<char> {
    match r {
        Role::Owner => "owner"@,
        Role::Admin => "admin"@,
        Role::Collaborator => "collaborator"@,
    }
}

/// The role stored as `v`, if any.
pub open spec fn role_from_value(v: Seq<char>) -> Option<Role> {
    if v == "owner"@ {
        Some(Role::Owner)
    } else if v == "admin"@ {
        Some(Role::Admin)
    } else if v == "collaborator"@ {
        Some(Role::Collaborator)
    } else {
        None
    }
}

impl Role {
    /// The text that the role is stored as.
    pub fn to_value(&self) -> (v: &'static str)
        ensures
            v@ == role_value(*self),
    {
        match self {
            Role::Owner => "owner",
            Role::Admin => "admin",
            Role::Collaborator => "collaborator",
        }
    }

    /// The role stored as `v`.
    pub fn try_from_value(v: &str) -> (r: Result<Role, UnknownValue>)
        ensures
            match role_from_value(v@) {
                Some(role) => r == Ok::<Role, UnknownValue>(role),
                None => r == Err::<Role, UnknownValue>(UnknownValue),
            },
    {
        if str_equals(v, "owner") {
            Ok(Role::Owner)
        } else if str_equals(v, "admin") {
            Ok(Role::Admin)
        } else if str_equals(v, "collaborator") {
            Ok(Role::Collaborator)
        } else {
            Err(UnknownValue)
        }
    }
}

/// Reading back the text a role is stored as gives the same role.
pub proof fn role_value_round_trip(r: Role)
    ensures
        role_from_value(role_value(r)) == Some(r),
{
    reveal_strlit("owner");
    reveal_strlit("admin");
    reveal_strlit("collaborator");
    assert("owner"@[0] == 'o');
    assert("admin"@[0] == 'a');
    assert("collaborator"@.len() == 12);
    assert("owner"@.len() == 5);
    assert("admin"@.len() == 5);
}

} // verus!
