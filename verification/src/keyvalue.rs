//! The arguments and results of the key-value contract.

use vstd::prelude::*;

verus! {

#[derive(Debug, PartialEq, Eq, Default)]
pub struct GetArgs {
    pub key: String,
}

#[derive(Debug, PartialEq, Eq, Default)]
pub struct AddArgs {
    pub key: String,
    pub value: i32,
}

#[derive(Debug, PartialEq, Eq, Default)]
pub struct SetArgs {
    pub key: String,
    pub value: String,
    pub expires: i32,
}

#[derive(Debug, PartialEq, Eq, Default)]
pub struct DelArgs {
    pub key: String,
}

#[derive(Debug, PartialEq, Eq, Default)]
pub struct ClearArgs {
    pub key: String,
}

#[derive(Debug, PartialEq, Eq, Default)]
pub struct RangeArgs {
    pub key: String,
    pub start: i32,
    pub stop: i32,
}

#[derive(Debug, PartialEq, Eq, Default)]
pub struct PushArgs {
    pub key: String,
    pub value: String,
}

#[derive(Debug, PartialEq, Eq, Default)]
pub struct ListItemDeleteArgs {
    pub key: String,
    pub value: String,
}

#[derive(Debug, PartialEq, Eq, Default)]
pub struct SetAddArgs {
    pub key: String,
    pub value: String,
}

#[derive(Debug, PartialEq, Eq, Default)]
pub struct SetRemoveArgs {
    pub key: String,
    pub value: String,
}

#[derive(Debug, PartialEq, Eq, Default)]
pub struct SetUnionArgs {
    pub keys: Vec<String>,
}

#[derive(Debug, PartialEq, Eq, Default)]
pub struct SetIntersectionArgs {
    pub keys: Vec<String>,
}

#[derive(Debug, PartialEq, Eq, Default)]
pub struct SetQueryArgs {
    pub key: String,
}

#[derive(Debug, PartialEq, Eq, Default)]
pub struct KeyExistsArgs {
    pub key: String,
}

/// The result of `Get` and of `KeyExists`.
#[derive(Debug, PartialEq, Eq, Default)]
pub struct GetResponse {
    pub value: String,
    pub exists: bool,
}

/// The result of `Add`: the value after the addition.
#[derive(Debug, PartialEq, Eq, Default)]
pub struct AddResponse {
    pub value: i32,
}

/// The result of `Del` and of `Clear`.
#[derive(Debug, PartialEq, Eq, Default)]
pub struct DelResponse {
    pub key: String,
}

/// The result of `Range`.
#[derive(Debug, PartialEq, Eq, Default)]
pub struct ListRangeResponse {
    pub values: Vec<String>,
}

/// The result of `Push` and of `ListItemDelete`.
#[derive(Debug, PartialEq, Eq, Default)]
pub struct ListResponse {
    pub new_count: i32,
}

/// The result of `Set`.
#[derive(Debug, PartialEq, Eq, Default)]
pub struct SetResponse {
    pub value: String,
}

/// The result of `SetAdd` and of `SetRemove`.
#[derive(Debug, PartialEq, Eq, Default)]
pub struct SetOperationResponse {
    pub new_count: i32,
}

/// The result of `SetUnion`, `SetIntersection` and `SetQuery`.
#[derive(Debug, PartialEq, Eq, Default)]
pub struct SetQueryResponse {
    pub values: Vec<String>,
}

} // verus!
