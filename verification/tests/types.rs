use openiot::types::{ApiResponse, DeviceType, ProtocolType};

#[test]
fn device_type_names() {
    assert_eq!(DeviceType::Light.to_string(), "灯");
    assert_eq!(DeviceType::Switch.to_string(), "开关");
    assert_eq!(DeviceType::Sensor.to_string(), "传感器");
    assert_eq!(DeviceType::Plug.to_string(), "插座");
    assert_eq!(DeviceType::Thermostat.to_string(), "温控器");
    assert_eq!(DeviceType::Unknown.to_string(), "未知");
}

#[test]
fn protocol_type_names() {
    assert_eq!(ProtocolType::BluetoothMesh1.to_string(), "BLE Mesh 1.0");
    assert_eq!(ProtocolType::BluetoothMesh2.to_string(), "BLE Mesh 2.0");
    assert_eq!(ProtocolType::Custom2G4.to_string(), "自研 2.4G");
}

#[test]
fn api_response_success_and_error() {
    let ok = ApiResponse::success(5u32);
    assert_eq!(ok.code, 0);
    assert_eq!(ok.message, "ok");
    assert_eq!(ok.data, Some(5));
    let err: ApiResponse<u32> = ApiResponse::error(4, "nope");
    assert_eq!(err.code, 4);
    assert_eq!(err.message, "nope");
    assert_eq!(err.data, None);
}

#[test]
fn api_response_into_data() {
    assert_eq!(ApiResponse::success(3u8).into_data(), Ok(3));
    let err: ApiResponse<u8> = ApiResponse::error(1, "Device not found");
    assert_eq!(err.into_data(), Err("Device not found".to_string()));
}

#[test]
fn api_response_into_status() {
    assert_eq!(ApiResponse::success(String::from("x")).into_status(), Ok(()));
    let err: ApiResponse<String> = ApiResponse::error(2, "bad");
    assert_eq!(err.into_status(), Err("bad".to_string()));
}
