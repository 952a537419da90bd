//! The ways a menu operation can be refused, and the messages it answers with.

use vstd::prelude::*;

verus! {

/// Why a menu operation was refused.
#[derive(Debug, Clone, Copy, PartialEq, Eq, Structural)]
pub enum MenuError {
    /// Another menu already has the path under the same parent, or the name.
    DuplicateRoute,
    /// The menu to change does not exist.
    MenuMissing,
    /// The request names no menu.
    BadRequest,
    /// No menu matches the request.
    NotFound,
}

/// The message that answers a refusal.
pub open spec fn error_text(e: MenuError) -> Seq<char> {
    match e {
        MenuError::DuplicateRoute => "路径或者名称重复"@,
        MenuError::MenuMissing => "菜单不存在"@,
        MenuError::BadRequest => "请求参数错误"@,
        MenuError::NotFound => "数据不存在"@,
    }
}

impl MenuError {
    /// The message that answers this refusal.
    pub fn message(&self) -> (r: String)
        ensures
            r@ == error_text(*self),
    {
        match self {
            MenuError::DuplicateRoute => String::from_str("路径或者名称重复"),
            MenuError::MenuMissing => String::from_str("菜单不存在"),
            MenuError::BadRequest => String::from_str("请求参数错误"),
            MenuError::NotFound => String::from_str("数据不存在"),
        }
    }
}

} // verus!
