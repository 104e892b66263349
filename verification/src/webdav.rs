//! WebDAV synchronisation settings and the decisions around an upload,
//! a download and a connection test: the remote URL of the backup and how
//! the server's status code is read.

use vstd::prelude::*;

use crate::text::{concat, owned, trim, trim_end, trim_chars, trim_end_chars, CharClass, lines, split_lines, string_of};

verus! {

/// WebDAV synchronisation settings.
#[derive(Debug, Clone)]
pub struct WebdavConfig {
    pub url: String,
    pub username: String,
    pub password: String,
    pub remote_dir: String,
}

impl Default for WebdavConfig {
    fn default() -> (c: Self)
        ensures
            c.url@.len() == 0,
            c.username@.len() == 0,
            c.password@.len() == 0,
            c.remote_dir@.len() == 0,
    {
        WebdavConfig {
            url: String::new(),
            username: String::new(),
            password: String::new(),
            remote_dir: String::new(),
        }
    }
}

/// The remote directory used when the settings name none: "xime".
pub fn default_remote_dir() -> (s: String)
    ensures
        s@ == "xime"@,
{
    owned("xime")
}

impl WebdavConfig {
    /// Whether a server address and a user name are both given.
    pub fn is_valid(&self) -> (b: bool)
        ensures
            b == (self.url@.len() > 0 && self.username@.len() > 0),
    {
        !self.url.as_str().is_empty() && !self.username.as_str().is_empty()
    }
}

/// Name of the backup archive on the server.
pub open spec fn backup_file_name() -> Seq<char> {
    "xime-backup.tar.gz"@
}

/// URL of the backup: the server address without trailing '/', then the
/// remote directory without surrounding '/', then the archive name.
pub open spec fn spec_backup_url(url: Seq<char>, remote_dir: Seq<char>) -> Seq<char> {
    trim_end(url, CharClass::Is('/')) + "/"@ + trim(remote_dir, CharClass::Is('/')) + "/"@
        + backup_file_name()
}

/// URL that an upload writes the backup to.
pub fn build_upload_url(config: &WebdavConfig) -> (s: String)
    ensures
        s@ == spec_backup_url(config.url@, config.remote_dir@),
{
    let url = trim_end_chars(config.url.as_str(), CharClass::Is('/'));
    let dir = trim_chars(config.remote_dir.as_str(), CharClass::Is('/'));
    let a = concat(url.as_str(), "/");
    let b = concat(a.as_str(), dir.as_str());
    let c = concat(b.as_str(), "/");
    concat(c.as_str(), "xime-backup.tar.gz")
}

/// URL that a download reads the backup from (the upload URL).
pub fn build_download_url(config: &WebdavConfig) -> (s: String)
    ensures
        s@ == spec_backup_url(config.url@, config.remote_dir@),
{
    build_upload_url(config)
}

/// URL probed by a connection test: the server address without trailing
/// '/', then the remote directory without surrounding '/', then '/'.
pub fn build_probe_url(config: &WebdavConfig) -> (s: String)
    ensures
        s@ == trim_end(config.url@, CharClass::Is('/')) + "/"@ + trim(
            config.remote_dir@,
            CharClass::Is('/'),
        ) + "/"@,
{
    let url = trim_end_chars(config.url.as_str(), CharClass::Is('/'));
    let dir = trim_chars(config.remote_dir.as_str(), CharClass::Is('/'));
    let a = concat(url.as_str(), "/");
    let b = concat(a.as_str(), dir.as_str());
    concat(b.as_str(), "/")
}

/// How the server answered a connection test.
#[derive(Debug, Clone, Copy, PartialEq, Eq, Structural)]
pub enum ProbeOutcome {
    /// 2xx: reachable and authenticated.
    Reachable,
    /// 401: wrong user name or password.
    Unauthorized,
    /// 403: access refused.
    Forbidden,
    /// 404: reachable, the remote directory does not exist yet (an upload creates it).
    MissingDirectory,
    /// 5xx and above: server error.
    ServerError,
    /// Anything else.
    Unexpected,
}

/// Reads the status code of a connection test.
pub fn probe_outcome(status: u16) -> (o: ProbeOutcome)
    ensures
        o == if 200 <= status <= 299 {
            ProbeOutcome::Reachable
        } else if status == 401 {
            ProbeOutcome::Unauthorized
        } else if status == 403 {
            ProbeOutcome::Forbidden
        } else if status == 404 {
            ProbeOutcome::MissingDirectory
        } else if status >= 500 {
            ProbeOutcome::ServerError
        } else {
            ProbeOutcome::Unexpected
        },
{
    if 200 <= status && status <= 299 {
        ProbeOutcome::Reachable
    } else if status == 401 {
        ProbeOutcome::Unauthorized
    } else if status == 403 {
        ProbeOutcome::Forbidden
    } else if status == 404 {
        ProbeOutcome::MissingDirectory
    } else if status >= 500 {
        ProbeOutcome::ServerError
    } else {
        ProbeOutcome::Unexpected
    }
}

/// Whether a connection-test outcome counts as success (2xx, or 404 for a missing directory).
pub fn probe_succeeded(o: ProbeOutcome) -> (b: bool)
    ensures
        b == (o is Reachable || o is MissingDirectory),
{
    match o {
        ProbeOutcome::Reachable | ProbeOutcome::MissingDirectory => true,
        _ => false,
    }
}

/// Whether the server accepted an upload (any 2xx status, 201 and 204 included).
pub fn upload_accepted(status: u16) -> (b: bool)
    ensures
        b == (200 <= status <= 299),
{
    200 <= status && status <= 299
}

/// How the server answered a download.
#[derive(Debug, Clone, Copy, PartialEq, Eq, Structural)]
pub enum DownloadOutcome {
    /// 2xx: the backup follows.
    Found,
    /// 404: there is no backup on the server.
    NoBackup,
    /// Any other status: check the address and credentials.
    Failed,
}

/// Reads the status code of a download.
pub fn download_outcome(status: u16) -> (o: DownloadOutcome)
    ensures
        o == if 200 <= status <= 299 {
            DownloadOutcome::Found
        } else if status == 404 {
            DownloadOutcome::NoBackup
        } else {
            DownloadOutcome::Failed
        },
{
    if 200 <= status && status <= 299 {
        DownloadOutcome::Found
    } else if status == 404 {
        DownloadOutcome::NoBackup
    } else {
        DownloadOutcome::Failed
    }
}

/// WebDAV synchronisation (the transfers themselves are performed by the application).
pub struct WebdavSync;

/// What the user is told when the server address or user name is missing.
pub open spec fn incomplete_message() -> Seq<char> {
    "请先填写 WebDAV 服务器地址和用户名"@
}

/// The refusal of a transfer whose settings are incomplete.
pub fn require_valid(config: &WebdavConfig) -> (r: Result<(), String>)
    ensures
        config.url@.len() > 0 && config.username@.len() > 0 ==> r is Ok,
        !(config.url@.len() > 0 && config.username@.len() > 0) ==> (r matches Err(m) && m@
            == incomplete_message()),
{
    if config.is_valid() {
        Ok(())
    } else {
        Err(owned("请先填写 WebDAV 服务器地址和用户名"))
    }
}

/// The reply of a connection test for status `status`, printed as `status_text`.
pub open spec fn spec_probe_reply(status: u16, status_text: Seq<char>) -> Result<Seq<char>, Seq<char>> {
    if 200 <= status <= 299 {
        Ok("✅ 连接成功！服务器可达，认证通过。"@)
    } else if status == 401 {
        Err("❌ 认证失败：用户名或密码错误 (HTTP 401)"@)
    } else if status == 403 {
        Err("❌ 权限不足：服务器拒绝访问 (HTTP 403)"@)
    } else if status == 404 {
        Ok("ℹ️ 服务器可达，但远程目录暂不存在（上传时将自动创建）。"@)
    } else if status >= 500 {
        Err("❌ 服务器错误 (HTTP "@ + status_text + ")"@)
    } else {
        Err("❌ 未预期的响应 (HTTP "@ + status_text + ")"@)
    }
}

/// The view of a text result.
pub open spec fn result_view(r: Result<String, String>) -> Result<Seq<char>, Seq<char>> {
    match r {
        Ok(s) => Ok(s@),
        Err(e) => Err(e@),
    }
}

/// What the user is told after a connection test.
pub fn probe_reply(status: u16, status_text: &str) -> (r: Result<String, String>)
    ensures
        result_view(r) == spec_probe_reply(status, status_text@),
{
    match probe_outcome(status) {
        ProbeOutcome::Reachable => Ok(owned("✅ 连接成功！服务器可达，认证通过。")),
        ProbeOutcome::Unauthorized => Err(owned("❌ 认证失败：用户名或密码错误 (HTTP 401)")),
        ProbeOutcome::Forbidden => Err(owned("❌ 权限不足：服务器拒绝访问 (HTTP 403)")),
        ProbeOutcome::MissingDirectory => Ok(owned("ℹ️ 服务器可达，但远程目录暂不存在（上传时将自动创建）。")),
        ProbeOutcome::ServerError => {
            let a = concat("❌ 服务器错误 (HTTP ", status_text);
            Err(concat(a.as_str(), ")"))
        },
        ProbeOutcome::Unexpected => {
            let a = concat("❌ 未预期的响应 (HTTP ", status_text);
            Err(concat(a.as_str(), ")"))
        },
    }
}

/// What the user is told when a request could not be sent: a timeout, a
/// failed connection, or another failure described by `detail`.
pub fn request_failure_message(is_timeout: bool, is_connect: bool, detail: &str) -> (m: String)
    ensures
        is_timeout ==> m@ == "连接超时：服务器无响应，请检查地址是否正确"@,
        !is_timeout && is_connect ==> m@ == "无法连接："@ + detail@,
        !is_timeout && !is_connect ==> m@ == "请求失败："@ + detail@,
{
    if is_timeout {
        owned("连接超时：服务器无响应，请检查地址是否正确")
    } else if is_connect {
        concat("无法连接：", detail)
    } else {
        concat("请求失败：", detail)
    }
}

/// The first line of `body`, or nothing.
pub open spec fn first_line(body: Seq<char>) -> Seq<char> {
    if lines(body).len() > 0 {
        lines(body)[0]
    } else {
        Seq::empty()
    }
}

/// What the user is told after an upload answered with `status` (printed
/// as `status_text`) and `body`.
pub fn upload_reply(status: u16, status_text: &str, body: &str) -> (r: Result<String, String>)
    ensures
        200 <= status <= 299 ==> result_view(r) == Ok::<Seq<char>, Seq<char>>("上传成功！"@),
        !(200 <= status <= 299) ==> result_view(r) == Err::<Seq<char>, Seq<char>>(
            "上传失败 (HTTP "@ + status_text@ + "): "@ + first_line(body@),
        ),
{
    if upload_accepted(status) {
        return Ok(owned("上传成功！"));
    }
    let ls = split_lines(body);
    let first = if ls.len() > 0 {
        string_of(ls[0].as_slice())
    } else {
        let e = owned("");
        proof {
            reveal_strlit("");
        }
        e
    };
    assert(first@ == first_line(body@));
    let a = concat("上传失败 (HTTP ", status_text);
    let b = concat(a.as_str(), "): ");
    Err(concat(b.as_str(), first.as_str()))
}

/// What the user is told when a download answered with `status` (printed as
/// `status_text`): `Ok` when the backup follows.
pub fn download_reply(status: u16, status_text: &str) -> (r: Result<(), String>)
    ensures
        200 <= status <= 299 ==> r is Ok,
        status == 404 ==> (r matches Err(m) && m@ == "服务器上未找到备份文件"@),
        !(200 <= status <= 299) && status != 404 ==> (r matches Err(m) && m@ == "下载失败 (HTTP "@
            + status_text@ + "): 请检查服务器地址和凭据"@),
{
    match download_outcome(status) {
        DownloadOutcome::Found => Ok(()),
        DownloadOutcome::NoBackup => Err(owned("服务器上未找到备份文件")),
        DownloadOutcome::Failed => {
            let a = concat("下载失败 (HTTP ", status_text);
            Err(concat(a.as_str(), "): 请检查服务器地址和凭据"))
        },
    }
}

/// What the user is told once the downloaded backup was unpacked, or
/// failed to unpack with `stderr`.
pub fn unpack_reply(success: bool, stderr: &str) -> (r: Result<String, String>)
    ensures
        success ==> result_view(r) == Ok::<Seq<char>, Seq<char>>("下载成功！配置已更新。"@),
        !success ==> result_view(r) == Err::<Seq<char>, Seq<char>>("解压配置失败: "@ + stderr@),
{
    if success {
        Ok(owned("下载成功！配置已更新。"))
    } else {
        Err(concat("解压配置失败: ", stderr))
    }
}

/// What the user is told when packing the settings failed with `stderr`.
pub fn pack_failure(stderr: &str) -> (m: String)
    ensures
        m@ == "打包 Rime 配置失败: "@ + stderr@,
{
    concat("打包 Rime 配置失败: ", stderr)
}

/// Which settings a sync runs with.
#[derive(Debug, Clone, Copy, PartialEq, Eq, Structural)]
pub enum ConfigChoice {
    /// The saved settings, which are complete.
    Saved,
    /// The settings typed in the form, which are complete: save them first.
    Typed,
    /// Neither is complete: there is nothing to sync with.
    Missing,
}

/// The saved settings when they hold an address and a user name, else the
/// typed ones when they do, else none.
pub fn choose_config(saved: &WebdavConfig, typed: &WebdavConfig) -> (c: ConfigChoice)
    ensures
        c == if saved.url@.len() > 0 && saved.username@.len() > 0 {
            ConfigChoice::Saved
        } else if typed.url@.len() > 0 && typed.username@.len() > 0 {
            ConfigChoice::Typed
        } else {
            ConfigChoice::Missing
        },
{
    if saved.is_valid() {
        ConfigChoice::Saved
    } else if typed.is_valid() {
        ConfigChoice::Typed
    } else {
        ConfigChoice::Missing
    }
}

/// The desktop notification for the outcome of a sync: its summary, body
/// and urgency ("Xime" and "normal" on success, "Xime 错误" and "critical"
/// on failure; the body is the outcome's message).
pub fn notification(result: &Result<String, String>) -> (n: (String, String, String))
    ensures
        match result {
            Ok(m) => n.0@ == "Xime"@ && n.1@ == m@ && n.2@ == "normal"@,
            Err(e) => n.0@ == "Xime 错误"@ && n.1@ == e@ && n.2@ == "critical"@,
        },
{
    match result {
        Ok(m) => (owned("Xime"), owned(m.as_str()), owned("normal")),
        Err(e) => (owned("Xime 错误"), owned(e.as_str()), owned("critical")),
    }
}

/// The urgency of a plain notification: "critical" for an error, else "normal".
pub fn notification_urgency(is_error: bool) -> (u: &'static str)
    ensures
        u@ == if is_error {
            "critical"@
        } else {
            "normal"@
        },
{
    if is_error {
        "critical"
    } else {
        "normal"
    }
}

} // verus!
