//! What a request is answered: the failures with their HTTP status and
//! message, and the messages of success.
use vstd::prelude::*;

verus! {

/// Why a request is refused.
#[derive(Clone, Copy, Debug, PartialEq, Eq, Structural)]
pub enum Failure {
    /// The request carries no readable bearer token.
    MissingToken,
    /// No session has the token, or looking it up failed.
    InvalidToken,
    /// The session has expired.
    TokenExpired,
    /// The session's account no longer exists.
    UnknownUser,
    /// A database call failed, or a stored value is unusable.
    Internal,
    /// The account name breaks the naming rule.
    BadUsername,
    /// The password breaks the password rule.
    BadPassword,
    /// Another account has the name.
    UsernameTaken,
    /// Storing the new account failed.
    CreateUserFailed,
    /// No account has the name, or the password is wrong.
    WrongCredentials,
    /// The caller lacks the permission.
    Forbidden,
    /// A date is not `YYYY-MM-DD`.
    BadDate,
    /// Storing the new book failed.
    AddBookFailed,
    /// No book has the id.
    BookNotFound,
    /// Removing the book failed.
    DeleteBookFailed,
    /// No account has the id.
    UserNotFound,
    /// Removing the account failed.
    DeleteUserFailed,
    /// Storing the new password failed.
    ChangePasswordFailed,
    /// Storing the contact details failed.
    UpdateUserFailed,
    /// The book is out on an active loan.
    AlreadyBorrowed,
    /// Storing the loan failed.
    BorrowFailed,
    /// The user has no active loan of the book.
    NoActiveLoan,
    /// Storing the return failed.
    ReturnFailed,
    /// No loan has the id.
    RecordNotFound,
    /// The loan belongs to another user.
    NotOwnRecord,
    /// The loan has ended.
    AlreadyReturned,
    /// Storing the renewal request failed.
    SubmitRenewalFailed,
    /// No renewal request has the id.
    RenewalNotFound,
    /// The renewal request was already decided.
    RenewalHandled,
    /// Storing the decision failed.
    ApproveFailed,
    /// Moving the loan's due date failed.
    ExtendFailed,
    /// The account named in the path is neither `me` nor a number.
    BadUserId,
}

/// The HTTP status code that answers a failure.
pub open spec fn failure_status(f: Failure) -> u16 {
    match f {
        Failure::MissingToken => 401,
        Failure::InvalidToken => 401,
        Failure::TokenExpired => 401,
        Failure::UnknownUser => 401,
        Failure::Internal => 500,
        Failure::BadUsername => 400,
        Failure::BadPassword => 400,
        Failure::UsernameTaken => 409,
        Failure::CreateUserFailed => 500,
        Failure::WrongCredentials => 401,
        Failure::Forbidden => 403,
        Failure::BadDate => 400,
        Failure::AddBookFailed => 500,
        Failure::BookNotFound => 404,
        Failure::DeleteBookFailed => 500,
        Failure::UserNotFound => 404,
        Failure::DeleteUserFailed => 500,
        Failure::ChangePasswordFailed => 500,
        Failure::UpdateUserFailed => 500,
        Failure::AlreadyBorrowed => 409,
        Failure::BorrowFailed => 500,
        Failure::NoActiveLoan => 404,
        Failure::ReturnFailed => 500,
        Failure::RecordNotFound => 404,
        Failure::NotOwnRecord => 403,
        Failure::AlreadyReturned => 409,
        Failure::SubmitRenewalFailed => 500,
        Failure::RenewalNotFound => 404,
        Failure::RenewalHandled => 409,
        Failure::ApproveFailed => 500,
        Failure::ExtendFailed => 500,
        Failure::BadUserId => 400,
    }
}

/// The message that answers a failure.
pub open spec fn failure_message(f: Failure) -> Seq<char> {
    match f {
        Failure::MissingToken => "缺少认证令牌"@,
        Failure::InvalidToken => "令牌无效"@,
        Failure::TokenExpired => "令牌已过期"@,
        Failure::UnknownUser => "用户不存在"@,
        Failure::Internal => "服务器内部错误"@,
        Failure::BadUsername => "用户名格式错误： 长度应为 3 至 32 位，且只包含字母、数字和下划线"@,
        Failure::BadPassword => "密码格式错误： 长度应为 8 至 64 位，且必须包含字母和数字"@,
        Failure::UsernameTaken => "用户名已存在"@,
        Failure::CreateUserFailed => "创建用户失败"@,
        Failure::WrongCredentials => "用户名或密码错误"@,
        Failure::Forbidden => "权限不足"@,
        Failure::BadDate => "日期格式错误，应为 YYYY-MM-DD"@,
        Failure::AddBookFailed => "添加书籍失败"@,
        Failure::BookNotFound => "书籍不存在"@,
        Failure::DeleteBookFailed => "删除书籍失败"@,
        Failure::UserNotFound => "用户不存在"@,
        Failure::DeleteUserFailed => "删除用户失败"@,
        Failure::ChangePasswordFailed => "修改密码失败"@,
        Failure::UpdateUserFailed => "修改用户信息失败"@,
        Failure::AlreadyBorrowed => "该书籍已被借出"@,
        Failure::BorrowFailed => "借阅失败"@,
        Failure::NoActiveLoan => "未找到借阅记录"@,
        Failure::ReturnFailed => "归还失败"@,
        Failure::RecordNotFound => "借阅记录不存在"@,
        Failure::NotOwnRecord => "只能续借自己的书籍"@,
        Failure::AlreadyReturned => "该书籍已归还"@,
        Failure::SubmitRenewalFailed => "提交续借申请失败"@,
        Failure::RenewalNotFound => "续借申请不存在"@,
        Failure::RenewalHandled => "该申请已被处理"@,
        Failure::ApproveFailed => "审批失败"@,
        Failure::ExtendFailed => "更新到期日期失败"@,
        Failure::BadUserId => "用户ID格式错误"@,
    }
}

impl Failure {
    /// The HTTP status code of the answer.
    pub fn status(&self) -> (r: u16)
        ensures
            r == failure_status(*self),
    {
        match self {
            Failure::MissingToken => 401,
            Failure::InvalidToken => 401,
            Failure::TokenExpired => 401,
            Failure::UnknownUser => 401,
            Failure::Internal => 500,
            Failure::BadUsername => 400,
            Failure::BadPassword => 400,
            Failure::UsernameTaken => 409,
            Failure::CreateUserFailed => 500,
            Failure::WrongCredentials => 401,
            Failure::Forbidden => 403,
            Failure::BadDate => 400,
            Failure::AddBookFailed => 500,
            Failure::BookNotFound => 404,
            Failure::DeleteBookFailed => 500,
            Failure::UserNotFound => 404,
            Failure::DeleteUserFailed => 500,
            Failure::ChangePasswordFailed => 500,
            Failure::UpdateUserFailed => 500,
            Failure::AlreadyBorrowed => 409,
            Failure::BorrowFailed => 500,
            Failure::NoActiveLoan => 404,
            Failure::ReturnFailed => 500,
            Failure::RecordNotFound => 404,
            Failure::NotOwnRecord => 403,
            Failure::AlreadyReturned => 409,
            Failure::SubmitRenewalFailed => 500,
            Failure::RenewalNotFound => 404,
            Failure::RenewalHandled => 409,
            Failure::ApproveFailed => 500,
            Failure::ExtendFailed => 500,
            Failure::BadUserId => 400,
        }
    }

    /// The message of the answer.
    pub fn message(&self) -> (r: &'static str)
        ensures
            r@ == failure_message(*self),
    {
        match self {
            Failure::MissingToken => "缺少认证令牌",
            Failure::InvalidToken => "令牌无效",
            Failure::TokenExpired => "令牌已过期",
            Failure::UnknownUser => "用户不存在",
            Failure::Internal => "服务器内部错误",
            Failure::BadUsername => "用户名格式错误： 长度应为 3 至 32 位，且只包含字母、数字和下划线",
            Failure::BadPassword => "密码格式错误： 长度应为 8 至 64 位，且必须包含字母和数字",
            Failure::UsernameTaken => "用户名已存在",
            Failure::CreateUserFailed => "创建用户失败",
            Failure::WrongCredentials => "用户名或密码错误",
            Failure::Forbidden => "权限不足",
            Failure::BadDate => "日期格式错误，应为 YYYY-MM-DD",
            Failure::AddBookFailed => "添加书籍失败",
            Failure::BookNotFound => "书籍不存在",
            Failure::DeleteBookFailed => "删除书籍失败",
            Failure::UserNotFound => "用户不存在",
            Failure::DeleteUserFailed => "删除用户失败",
            Failure::ChangePasswordFailed => "修改密码失败",
            Failure::UpdateUserFailed => "修改用户信息失败",
            Failure::AlreadyBorrowed => "该书籍已被借出",
            Failure::BorrowFailed => "借阅失败",
            Failure::NoActiveLoan => "未找到借阅记录",
            Failure::ReturnFailed => "归还失败",
            Failure::RecordNotFound => "借阅记录不存在",
            Failure::NotOwnRecord => "只能续借自己的书籍",
            Failure::AlreadyReturned => "该书籍已归还",
            Failure::SubmitRenewalFailed => "提交续借申请失败",
            Failure::RenewalNotFound => "续借申请不存在",
            Failure::RenewalHandled => "该申请已被处理",
            Failure::ApproveFailed => "审批失败",
            Failure::ExtendFailed => "更新到期日期失败",
            Failure::BadUserId => "用户ID格式错误",
        }
    }
}

/// What a request that succeeded is answered; the HTTP status is 200.
#[derive(Clone, Copy, Debug, PartialEq, Eq, Structural)]
pub enum Success {
    Registered,
    LoggedIn,
    Queried,
    BookAdded,
    BookDeleted,
    UserDeleted,
    PasswordChanged,
    UserUpdated,
    Borrowed,
    Returned,
    RenewalSubmitted,
    RenewalApproved,
    RenewalRejected,
}

/// The message that answers a success.
pub open spec fn success_message(s: Success) -> Seq<char> {
    match s {
        Success::Registered => "注册成功"@,
        Success::LoggedIn => "登录成功"@,
        Success::Queried => "查询成功"@,
        Success::BookAdded => "添加书籍成功"@,
        Success::BookDeleted => "删除书籍成功"@,
        Success::UserDeleted => "删除用户成功"@,
        Success::PasswordChanged => "修改密码成功"@,
        Success::UserUpdated => "修改用户信息成功"@,
        Success::Borrowed => "借阅成功"@,
        Success::Returned => "归还成功"@,
        Success::RenewalSubmitted => "续借申请已提交"@,
        Success::RenewalApproved => "续借申请已通过"@,
        Success::RenewalRejected => "续借申请已拒绝"@,
    }
}

impl Success {
    /// The message of the answer.
    pub fn message(&self) -> (r: &'static str)
        ensures
            r@ == success_message(*self),
    {
        match self {
            Success::Registered => "注册成功",
            Success::LoggedIn => "登录成功",
            Success::Queried => "查询成功",
            Success::BookAdded => "添加书籍成功",
            Success::BookDeleted => "删除书籍成功",
            Success::UserDeleted => "删除用户成功",
            Success::PasswordChanged => "修改密码成功",
            Success::UserUpdated => "修改用户信息成功",
            Success::Borrowed => "借阅成功",
            Success::Returned => "归还成功",
            Success::RenewalSubmitted => "续借申请已提交",
            Success::RenewalApproved => "续借申请已通过",
            Success::RenewalRejected => "续借申请已拒绝",
        }
    }
}

} // verus!
