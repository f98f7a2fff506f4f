//! Verified core of a voice-controlled AVR (audio/video receiver) gateway:
//! a command codec that maps abstract commands to device wire codes, a
//! single-slot request/response bridge between the request flow and the
//! device connection, the connection manager's state machine, and the
//! orchestrator that sequences precondition checks, sends, and validation.
pub mod avr;
pub mod bridge;
pub mod codec;
pub mod conn;
pub mod skill;
pub mod wire;
