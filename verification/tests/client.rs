use openiot::client::{AppView, IoTApp};
use openiot::types::{Device, DeviceType, ProtocolType, TokenResponse};

fn token(name: &str) -> TokenResponse {
    TokenResponse { token: "jwt".to_string(), username: name.to_string() }
}

fn device(id: &str) -> Device {
    Device {
        id: 1,
        user_id: 1,
        device_id: id.to_string(),
        name: "灯".to_string(),
        device_type: DeviceType::Light,
        protocol: ProtocolType::BluetoothMesh2,
        token: String::new(),
        online: true,
        last_seen: String::new(),
        created_at: String::new(),
    }
}

#[test]
fn app_starts_logged_out() {
    let app = IoTApp::default();
    assert!(app.token.is_none());
    assert!(app.username.is_none());
    assert!(app.devices.is_empty());
    assert_eq!(app.current_view, AppView::Login);
    assert!(app.login_username.is_empty());
    assert!(app.status_message.is_none());
}

#[test]
fn login_success_and_failure() {
    let mut app = IoTApp::default();
    app.apply_login(Err("Invalid username or password".to_string()));
    assert_eq!(app.status_message.as_deref(), Some("登录失败: Invalid username or password"));
    assert_eq!(app.current_view, AppView::Login);
    app.apply_login(Ok(token("alice")));
    assert_eq!(app.token.as_deref(), Some("jwt"));
    assert_eq!(app.username.as_deref(), Some("alice"));
    assert_eq!(app.current_view, AppView::Dashboard);
    assert_eq!(app.status_message.as_deref(), Some("登录成功"));
}

#[test]
fn register_success_and_failure() {
    let mut app = IoTApp::default();
    app.apply_register(Err("Username already exists".to_string()));
    assert_eq!(app.status_message.as_deref(), Some("注册失败: Username already exists"));
    app.apply_register(Ok(token("bob")));
    assert_eq!(app.current_view, AppView::Dashboard);
    assert_eq!(app.status_message.as_deref(), Some("注册成功"));
}

#[test]
fn device_list_and_logout() {
    let mut app = IoTApp::default();
    app.apply_login(Ok(token("alice")));
    app.apply_device_list(Ok(vec![device("a"), device("b")]));
    assert_eq!(app.devices.len(), 2);
    app.apply_device_list(Err("timeout".to_string()));
    assert_eq!(app.devices.len(), 2);
    assert_eq!(app.status_message.as_deref(), Some("获取设备失败: timeout"));
    app.logout();
    assert!(app.token.is_none());
    assert!(app.username.is_none());
    assert!(app.devices.is_empty());
    assert_eq!(app.current_view, AppView::Login);
}

#[test]
fn click_requests_follow_the_state() {
    let mut app = IoTApp::default();
    assert_eq!(app.refresh_devices_request(), None);
    app.login_username = "alice".to_string();
    app.login_password = "pw".to_string();
    let login = app.login_request();
    assert_eq!((login.username.as_str(), login.password.as_str()), ("alice", "pw"));
    let register = app.register_request();
    assert_eq!((register.username.as_str(), register.password.as_str()), ("alice", "pw"));
    app.apply_login(Ok(token("alice")));
    assert_eq!(app.refresh_devices_request().as_deref(), Some("jwt"));
    app.logout();
    assert_eq!(app.refresh_devices_request(), None);
}
