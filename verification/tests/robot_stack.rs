//! Tests for the robot communication layer and the state models.

use retron::robot::actuator::{ActuatorState, ActuatorType};
use retron::robot::communication::{
    CommunicationChannel, CommunicationManager, CommunicationProtocol, CommunicationState, Message,
};
use retron::robot::control::{ControlMode, ControlState};
use retron::robot::motion::MotionState;
use retron::robot::navigation::NavigationState;
use retron::robot::sensor::{SensorState, SensorType};

#[test]
fn a_channel_only_sends_while_connected() {
    let mut channel = CommunicationChannel::new(1, CommunicationProtocol::Serial);
    assert_eq!(channel.state, CommunicationState::Disconnected);
    let message = Message::new(1, vec![1, 2, 3], 5);
    assert!(!channel.send_message(message));
    assert!(channel.connect());
    assert_eq!(channel.state, CommunicationState::Connected);
    assert!(channel.send_message(Message::new(2, vec![4], 1)));
    assert_eq!(channel.send_queue.len(), 1);
    channel.disconnect();
    assert_eq!(channel.send_queue.len(), 0);
    assert_eq!(channel.state, CommunicationState::Disconnected);
}

#[test]
fn the_send_queue_is_bounded() {
    let mut channel = CommunicationChannel::new(1, CommunicationProtocol::TCP);
    channel.connect();
    for i in 0..100 {
        assert!(channel.send_message(Message::new(i, Vec::new(), 0)));
    }
    assert!(!channel.send_message(Message::new(200, Vec::new(), 0)));
    assert_eq!(channel.send_queue.len(), 100);
}

#[test]
fn updating_a_connected_channel_flushes_its_queue() {
    let mut channel = CommunicationChannel::new(1, CommunicationProtocol::CAN);
    channel.connect();
    channel.send_message(Message::new(1, vec![9], 1));
    channel.update();
    assert_eq!(channel.send_queue.len(), 0);
    let mut idle = CommunicationChannel::new(2, CommunicationProtocol::UDP);
    idle.update();
    assert_eq!(idle.state, CommunicationState::Disconnected);
}

#[test]
fn received_messages_come_back_in_reverse_arrival_order() {
    let mut channel = CommunicationChannel::new(1, CommunicationProtocol::I2C);
    channel.receive_queue.push(Message::new(1, vec![1], 0));
    channel.receive_queue.push(Message::new(2, vec![2], 0));
    assert_eq!(channel.receive_message().unwrap().id, 2);
    assert_eq!(channel.receive_message().unwrap().id, 1);
    assert!(channel.receive_message().is_none());
}

#[test]
fn the_manager_routes_by_id_and_protocol() {
    let mut m = CommunicationManager::new();
    let serial = m.add_channel(CommunicationProtocol::Serial);
    let wifi = m.add_channel(CommunicationProtocol::WiFi);
    assert_eq!((serial, wifi), (1, 2));
    assert!(m.get_channel(serial).is_some());
    assert!(m.get_channel(9).is_none());
    assert!(m.find_channel_by_protocol(CommunicationProtocol::WiFi).is_some());
    assert!(m.find_channel_by_protocol(CommunicationProtocol::SPI).is_none());
    assert!(m.connect_channel(serial));
    assert!(!m.connect_channel(9));
    assert!(m.send_message(serial, vec![1, 2], 7));
    assert!(!m.send_message(wifi, vec![1], 7));
    assert!(m.receive_message(serial).is_none());
    m.update_all();
    m.disconnect_channel(serial);
    assert_eq!(m.get_channels()[0].state, CommunicationState::Disconnected);
}

#[test]
fn the_state_models_enumerate_their_spaces() {
    assert_ne!(ActuatorType::Servo, ActuatorType::Hydraulic);
    assert_ne!(ActuatorState::Idle, ActuatorState::Error);
    assert_ne!(ControlMode::Manual, ControlMode::Autonomous);
    assert_ne!(ControlState::Ready, ControlState::Running);
    assert_ne!(MotionState::Idle, MotionState::Emergency);
    assert_ne!(NavigationState::Planning, NavigationState::Reached);
    assert_ne!(SensorType::Lidar, SensorType::GPS);
    assert_ne!(SensorState::Active, SensorState::Calibrating);
}
