//! An IBM PC/XT-class machine: the 8088 instruction engine, its register file,
//! flags and segmented memory, and the state machines of the peripheral chips
//! that the CPU reaches through its I/O ports.
pub mod arith;
pub mod board;
pub mod cpu;
pub mod decode;
pub mod dispatch;
pub mod dma;
pub mod fixed_disk;
pub mod flag_ops;
pub mod flags;
pub mod graphics;
pub mod jump;
pub mod memory;
pub mod operand;
pub mod pic;
pub mod pit;
pub mod ppi;
pub mod register;
pub mod state;
pub mod string;
pub mod transfer;
