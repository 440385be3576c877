use vstd::prelude::*;

pub mod buffer;
pub mod compute;
pub mod context;
pub mod descriptor;
pub mod device;
pub mod error;
pub mod event;
pub mod flags;
pub mod game_data;
pub mod instance;
pub mod math;
pub mod memory;
pub mod names;
pub mod person;
pub mod pipeline;
pub mod population;
pub mod rand;
pub mod runtime;
pub mod shader;
pub mod shared;
pub mod simd;
pub mod sync;
pub mod time;
pub mod transfer;
pub mod utils;
