//! The data model shared by the server and its clients.

use vstd::prelude::*;
use vstd::string::*;

verus! {

/// Declares `serde_json::Value` to the verifier: command parameters and device
/// states are carried through the library as such values, and it never looks inside one.
#[verifier::external_type_specification]
#[verifier::external_body]
pub struct ExJsonValue(serde_json::Value);

/// A registered user.
#[derive(Debug, Clone)]
pub struct User {
    pub id: i64,
    pub username: String,
    pub password_hash: String,
    pub created_at: String,
}

/// A device that belongs to a user.
#[derive(Debug, Clone)]
pub struct Device {
    pub id: i64,
    pub user_id: i64,
    /// Unique identifier of the device (a MAC address or a chosen id).
    pub device_id: String,
    pub name: String,
    pub device_type: DeviceType,
    pub protocol: ProtocolType,
    /// The device's token.
    pub token: String,
    pub online: bool,
    pub last_seen: String,
    pub created_at: String,
}

/// Kind of device.
#[derive(Debug, Clone, Copy, PartialEq, Eq, Structural)]
pub enum DeviceType {
    Light,
    Switch,
    Sensor,
    Plug,
    Thermostat,
    Unknown,
}

impl DeviceType {
    /// The name shown to users for this kind of device.
    pub open spec fn display_name(self) -> Seq<char> {
        match self {
            DeviceType::Light => "灯"@,
            DeviceType::Switch => "开关"@,
            DeviceType::Sensor => "传感器"@,
            DeviceType::Plug => "插座"@,
            DeviceType::Thermostat => "温控器"@,
            DeviceType::Unknown => "未知"@,
        }
    }

    /// The name shown to users for this kind of device.
    pub fn to_string(&self) -> (s: String)
        ensures
            s@ == self.display_name(),
    {
        match self {
            DeviceType::Light => String::from_str("灯"),
            DeviceType::Switch => String::from_str("开关"),
            DeviceType::Sensor => String::from_str("传感器"),
            DeviceType::Plug => String::from_str("插座"),
            DeviceType::Thermostat => String::from_str("温控器"),
            DeviceType::Unknown => String::from_str("未知"),
        }
    }
}

/// Radio protocol that a device speaks.
#[derive(Debug, Clone, Copy, PartialEq, Eq, Structural)]
pub enum ProtocolType {
    /// BLE Mesh 1.0.
    BluetoothMesh1,
    /// BLE Mesh 2.0.
    BluetoothMesh2,
    /// The platform's own 2.4G protocol.
    Custom2G4,
}

impl ProtocolType {
    /// The name shown to users for this protocol.
    pub open spec fn display_name(self) -> Seq<char> {
        match self {
            ProtocolType::BluetoothMesh1 => "BLE Mesh 1.0"@,
            ProtocolType::BluetoothMesh2 => "BLE Mesh 2.0"@,
            ProtocolType::Custom2G4 => "自研 2.4G"@,
        }
    }

    /// The name shown to users for this protocol.
    pub fn to_string(&self) -> (s: String)
        ensures
            s@ == self.display_name(),
    {
        match self {
            ProtocolType::BluetoothMesh1 => String::from_str("BLE Mesh 1.0"),
            ProtocolType::BluetoothMesh2 => String::from_str("BLE Mesh 2.0"),
            ProtocolType::Custom2G4 => String::from_str("自研 2.4G"),
        }
    }
}

/// A command sent to a device.
#[derive(Debug)]
pub struct DeviceCommand {
    pub device_id: String,
    pub command: String,
    pub params: serde_json::Value,
}

/// A state report from a device.
#[derive(Debug)]
pub struct DeviceStatus {
    pub device_id: String,
    pub state: serde_json::Value,
    pub timestamp: String,
}

/// The envelope of every HTTP API answer: code 0 and data on success, an error
/// code and message otherwise.
#[derive(Debug)]
pub struct ApiResponse<T> {
    pub code: i32,
    pub message: String,
    pub data: Option<T>,
}

impl<T> ApiResponse<T> {
    /// A successful answer carrying `data`.
    pub fn success(data: T) -> (r: Self)
        ensures
            r.code == 0,
            r.message@ == "ok"@,
            r.data == Some(data),
    {
        ApiResponse { code: 0, message: String::from_str("ok"), data: Some(data) }
    }

    /// A failed answer with the given code and message.
    pub fn error(code: i32, msg: &str) -> (r: Self)
        ensures
            r.code == code,
            r.message@ == msg@,
            r.data is None,
    {
        ApiResponse { code, message: String::from_str(msg), data: None }
    }
}

impl<T> ApiResponse<T> {
    /// The data of the answer, or its message where it carries none.
    pub fn into_data(self) -> (r: Result<T, String>)
        ensures
            match self.data {
                Some(d) => r == Ok::<T, String>(d),
                None => r == Err::<T, String>(self.message),
            },
    {
        match self.data {
            Some(d) => Ok(d),
            None => Err(self.message),
        }
    }

    /// Success where the code is 0, else the answer's message.
    pub fn into_status(self) -> (r: Result<(), String>)
        ensures
            self.code == 0 ==> r is Ok,
            self.code != 0 ==> r == Err::<(), String>(self.message),
    {
        if self.code == 0 {
            Ok(())
        } else {
            Err(self.message)
        }
    }
}

/// A message on the WebSocket channel.
#[derive(Debug)]
pub enum WsMessage {
    /// A device's state changed.
    DeviceStatusUpdate(DeviceStatus),
    /// A command for a device.
    DeviceCommand(DeviceCommand),
    /// A provisioning request.
    ProvisionRequest(ProvisionInfo),
    /// The result of provisioning.
    ProvisionResult { success: bool, device_id: String, message: String },
    /// Heartbeat.
    Ping,
    Pong,
}

/// What a device needs to join the network.
#[derive(Debug, Clone)]
pub struct ProvisionInfo {
    pub ssid: String,
    pub password: String,
    pub device_type: DeviceType,
    pub protocol: ProtocolType,
}

/// Login request.
#[derive(Debug)]
pub struct LoginRequest {
    pub username: String,
    pub password: String,
}

/// Registration request.
#[derive(Debug)]
pub struct RegisterRequest {
    pub username: String,
    pub password: String,
}

/// Token answer to a login or a registration.
#[derive(Debug)]
pub struct TokenResponse {
    pub token: String,
    pub username: String,
}

} // verus!
