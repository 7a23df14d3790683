//! State of the desktop client and how server answers change it.

use vstd::prelude::*;
use vstd::string::*;
use crate::types::{Device, LoginRequest, RegisterRequest, TokenResponse};

verus! {

/// The screen the client shows.
#[derive(Debug, Clone, Copy, PartialEq, Eq, Structural)]
pub enum AppView {
    Login,
    Dashboard,
}

/// The client's state.
pub struct IoTApp {
    pub token: Option<String>,
    pub username: Option<String>,
    pub devices: Vec<Device>,
    pub current_view: AppView,
    pub login_username: String,
    pub login_password: String,
    pub status_message: Option<String>,
}

impl Default for IoTApp {
    /// Logged out, on the login screen, with empty fields and no devices.
    fn default() -> (app: Self)
        ensures
            app.token is None,
            app.username is None,
            app.devices@.len() == 0,
            app.current_view == AppView::Login,
            app.login_username@ == Seq::<char>::empty(),
            app.login_password@ == Seq::<char>::empty(),
            app.status_message is None,
    {
        IoTApp {
            token: None,
            username: None,
            devices: Vec::new(),
            current_view: AppView::Login,
            login_username: String::new(),
            login_password: String::new(),
            status_message: None,
        }
    }
}

/// The status line after a failed request: `prefix` followed by the error.
pub open spec fn failure_line(prefix: Seq<char>, error: Seq<char>) -> Seq<char> {
    prefix + error
}

impl IoTApp {
    /// Signs in with a token answer and switches to the dashboard, with
    /// `note` as the status line.
    fn sign_in(&mut self, resp: TokenResponse, note: &str)
        ensures
            final(self).token == Some(resp.token),
            final(self).username == Some(resp.username),
            final(self).current_view == AppView::Dashboard,
            final(self).status_message matches Some(m) && m@ == note@,
            final(self).devices == old(self).devices,
            final(self).login_username == old(self).login_username,
            final(self).login_password == old(self).login_password,
    {
        self.token = Some(resp.token);
        self.username = Some(resp.username);
        self.current_view = AppView::Dashboard;
        self.status_message = Some(String::from_str(note));
    }

    /// Shows `prefix` and the error on the status line; nothing else changes.
    fn report_failure(&mut self, prefix: &str, error: String)
        ensures
            final(self).status_message matches Some(m) && m@ == failure_line(prefix@, error@),
            final(self).token == old(self).token,
            final(self).username == old(self).username,
            final(self).devices == old(self).devices,
            final(self).current_view == old(self).current_view,
            final(self).login_username == old(self).login_username,
            final(self).login_password == old(self).login_password,
    {
        self.status_message = Some(String::from_str(prefix).concat(error.as_str()));
    }

    /// Applies the answer to a login: on success the client holds the token
    /// and the user's name and shows the dashboard ("登录成功"); on failure it
    /// stays where it was and shows "登录失败: " and the error.
    pub fn apply_login(&mut self, result: Result<TokenResponse, String>)
        ensures
            match result {
                Ok(resp) => {
                    &&& final(self).token == Some(resp.token)
                    &&& final(self).username == Some(resp.username)
                    &&& final(self).current_view == AppView::Dashboard
                    &&& final(self).status_message matches Some(m) && m@ == "登录成功"@
                    &&& final(self).devices == old(self).devices
                },
                Err(e) => {
                    &&& final(self).status_message matches Some(m) && m@ == failure_line("登录失败: "@, e@)
                    &&& final(self).token == old(self).token
                    &&& final(self).username == old(self).username
                    &&& final(self).current_view == old(self).current_view
                    &&& final(self).devices == old(self).devices
                },
            },
            final(self).login_username == old(self).login_username,
            final(self).login_password == old(self).login_password,
    {
        match result {
            Ok(resp) => self.sign_in(resp, "登录成功"),
            Err(e) => self.report_failure("登录失败: ", e),
        }
    }

    /// Applies the answer to a registration, as a login does, with the notes
    /// "注册成功" and "注册失败: ".
    pub fn apply_register(&mut self, result: Result<TokenResponse, String>)
        ensures
            match result {
                Ok(resp) => {
                    &&& final(self).token == Some(resp.token)
                    &&& final(self).username == Some(resp.username)
                    &&& final(self).current_view == AppView::Dashboard
                    &&& final(self).status_message matches Some(m) && m@ == "注册成功"@
                    &&& final(self).devices == old(self).devices
                },
                Err(e) => {
                    &&& final(self).status_message matches Some(m) && m@ == failure_line("注册失败: "@, e@)
                    &&& final(self).token == old(self).token
                    &&& final(self).username == old(self).username
                    &&& final(self).current_view == old(self).current_view
                    &&& final(self).devices == old(self).devices
                },
            },
            final(self).login_username == old(self).login_username,
            final(self).login_password == old(self).login_password,
    {
        match result {
            Ok(resp) => self.sign_in(resp, "注册成功"),
            Err(e) => self.report_failure("注册失败: ", e),
        }
    }

    /// Logs out: forgets the token, the user and the devices, and shows the
    /// login screen.
    pub fn logout(&mut self)
        ensures
            final(self).token is None,
            final(self).username is None,
            final(self).devices@.len() == 0,
            final(self).current_view == AppView::Login,
            final(self).status_message == old(self).status_message,
            final(self).login_username == old(self).login_username,
            final(self).login_password == old(self).login_password,
    {
        self.token = None;
        self.username = None;
        self.devices.clear();
        self.current_view = AppView::Login;
    }

    /// Applies the answer to fetching the device list: the list replaces the
    /// devices, or the status line shows "获取设备失败: " and the error.
    pub fn apply_device_list(&mut self, result: Result<Vec<Device>, String>)
        ensures
            match result {
                Ok(v) => final(self).devices == v && final(self).status_message == old(self).status_message,
                Err(e) => {
                    &&& final(self).status_message matches Some(m) && m@ == failure_line("获取设备失败: "@, e@)
                    &&& final(self).devices == old(self).devices
                },
            },
            final(self).token == old(self).token,
            final(self).username == old(self).username,
            final(self).current_view == old(self).current_view,
            final(self).login_username == old(self).login_username,
            final(self).login_password == old(self).login_password,
    {
        match result {
            Ok(devices) => self.devices = devices,
            Err(e) => self.report_failure("获取设备失败: ", e),
        }
    }

    /// The token that a click on "refresh the device list" sends: the held
    /// token, and no request at all when the client holds none.
    pub fn refresh_devices_request(&self) -> (r: Option<String>)
        ensures
            r == self.token,
    {
        match &self.token {
            Some(t) => Some(t.clone()),
            None => None,
        }
    }

    /// The request that a click on "log in" sends: the typed name and password.
    pub fn login_request(&self) -> (r: LoginRequest)
        ensures
            r.username == self.login_username,
            r.password == self.login_password,
    {
        LoginRequest { username: self.login_username.clone(), password: self.login_password.clone() }
    }

    /// The request that a click on "register" sends: the typed name and password.
    pub fn register_request(&self) -> (r: RegisterRequest)
        ensures
            r.username == self.login_username,
            r.password == self.login_password,
    {
        RegisterRequest { username: self.login_username.clone(), password: self.login_password.clone() }
    }
}

} // verus!
