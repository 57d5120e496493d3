use bookshelf::config::{sqlite_file_name, sqlite_url, ConfigError, ConnectTarget, DatabaseBackend, DatabaseConfig};
use bookshelf::reply::{Failure, Success};
use bookshelf::step::read_date;
use bookshelf::time::{format_date, parse_date, Timestamp, MAX_NANOS, MIN_NANOS};

#[test]
fn failure_answers() {
    let all = [
        (Failure::MissingToken, 401, "缺少认证令牌"),
        (Failure::InvalidToken, 401, "令牌无效"),
        (Failure::TokenExpired, 401, "令牌已过期"),
        (Failure::UnknownUser, 401, "用户不存在"),
        (Failure::Internal, 500, "服务器内部错误"),
        (Failure::BadUsername, 400, "用户名格式错误： 长度应为 3 至 32 位，且只包含字母、数字和下划线"),
        (Failure::BadPassword, 400, "密码格式错误： 长度应为 8 至 64 位，且必须包含字母和数字"),
        (Failure::UsernameTaken, 409, "用户名已存在"),
        (Failure::CreateUserFailed, 500, "创建用户失败"),
        (Failure::WrongCredentials, 401, "用户名或密码错误"),
        (Failure::Forbidden, 403, "权限不足"),
        (Failure::BadDate, 400, "日期格式错误，应为 YYYY-MM-DD"),
        (Failure::AddBookFailed, 500, "添加书籍失败"),
        (Failure::BookNotFound, 404, "书籍不存在"),
        (Failure::DeleteBookFailed, 500, "删除书籍失败"),
        (Failure::UserNotFound, 404, "用户不存在"),
        (Failure::DeleteUserFailed, 500, "删除用户失败"),
        (Failure::ChangePasswordFailed, 500, "修改密码失败"),
        (Failure::UpdateUserFailed, 500, "修改用户信息失败"),
        (Failure::AlreadyBorrowed, 409, "该书籍已被借出"),
        (Failure::BorrowFailed, 500, "借阅失败"),
        (Failure::NoActiveLoan, 404, "未找到借阅记录"),
        (Failure::ReturnFailed, 500, "归还失败"),
        (Failure::RecordNotFound, 404, "借阅记录不存在"),
        (Failure::NotOwnRecord, 403, "只能续借自己的书籍"),
        (Failure::AlreadyReturned, 409, "该书籍已归还"),
        (Failure::SubmitRenewalFailed, 500, "提交续借申请失败"),
        (Failure::RenewalNotFound, 404, "续借申请不存在"),
        (Failure::RenewalHandled, 409, "该申请已被处理"),
        (Failure::ApproveFailed, 500, "审批失败"),
        (Failure::ExtendFailed, 500, "更新到期日期失败"),
        (Failure::BadUserId, 400, "用户ID格式错误"),
    ];
    for (f, status, message) in all {
        assert_eq!(f.status(), status);
        assert_eq!(f.message(), message);
    }
}

#[test]
fn success_answers() {
    assert_eq!(Success::Registered.message(), "注册成功");
    assert_eq!(Success::LoggedIn.message(), "登录成功");
    assert_eq!(Success::Queried.message(), "查询成功");
    assert_eq!(Success::BookAdded.message(), "添加书籍成功");
    assert_eq!(Success::BookDeleted.message(), "删除书籍成功");
    assert_eq!(Success::UserDeleted.message(), "删除用户成功");
    assert_eq!(Success::PasswordChanged.message(), "修改密码成功");
    assert_eq!(Success::UserUpdated.message(), "修改用户信息成功");
    assert_eq!(Success::Borrowed.message(), "借阅成功");
    assert_eq!(Success::Returned.message(), "归还成功");
    assert_eq!(Success::RenewalSubmitted.message(), "续借申请已提交");
    assert_eq!(Success::RenewalApproved.message(), "续借申请已通过");
    assert_eq!(Success::RenewalRejected.message(), "续借申请已拒绝");
}

#[test]
fn connect_targets() {
    let sqlite = DatabaseConfig { backend: DatabaseBackend::Sqlite, postgres_url: Some("postgres://x".to_string()) };
    assert_eq!(sqlite.connect_target(), Ok(ConnectTarget::SqliteFile));
    let pg = DatabaseConfig { backend: DatabaseBackend::Postgres, postgres_url: Some("postgres://x".to_string()) };
    assert_eq!(pg.connect_target(), Ok(ConnectTarget::Url("postgres://x".to_string())));
    let none = DatabaseConfig { backend: DatabaseBackend::Postgres, postgres_url: None };
    assert_eq!(none.connect_target(), Err(ConfigError::UrlNotSet));
    assert_eq!(ConfigError::UrlNotSet.message(), "Database URL has not been set.");
    assert_eq!(sqlite_url("./data/db.sqlite"), "sqlite:./data/db.sqlite");
    assert_eq!(sqlite_file_name(), "db.sqlite");
}

#[test]
fn timestamps_range() {
    assert!(Timestamp::from_nanosecond(MIN_NANOS).is_some());
    assert!(Timestamp::from_nanosecond(MIN_NANOS - 1).is_none());
    assert!(Timestamp::from_nanosecond(MAX_NANOS).is_some());
    assert!(Timestamp::from_nanosecond(MAX_NANOS + 1).is_none());
    let t = Timestamp::from_nanosecond(5).unwrap();
    assert_eq!(t.as_nanosecond(), 5);
    assert!(t.is_before(&Timestamp::from_nanosecond(6).unwrap()));
    assert!(!t.is_before(&t));
    assert_eq!(t.plus_hours(2).as_nanosecond(), 5 + 2 * 3_600_000_000_000);
    assert_eq!(MIN_NANOS, jiff::Timestamp::MIN.as_nanosecond());
    assert_eq!(MAX_NANOS, jiff::Timestamp::MAX.as_nanosecond());
}

#[test]
fn dates_read_and_written() {
    let t = parse_date("2024-06-01").unwrap();
    assert_eq!(t.as_nanosecond(), 1_717_200_000 * 1_000_000_000);
    assert_eq!(format_date(&t), "2024-06-01");
    assert_eq!(format_date(&Timestamp::from_nanosecond(1_717_286_399 * 1_000_000_000).unwrap()), "2024-06-01");
    assert!(parse_date("2024-13-01").is_none());
    assert!(parse_date("").is_none());
    assert_eq!(read_date("1970-01-01"), Ok(Timestamp::from_nanosecond(0).unwrap()));
    assert_eq!(read_date("x"), Err(Failure::BadDate));
}
