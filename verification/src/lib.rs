// ADA Staking CLI Tool (Not Offical or Investment Advice ⚠️)
// Copyright (C) 2022  zulrah <email none of your business 🤣>
//
// This program is free software; you can redistribute it and/or
// modify it under the terms of the GNU General Public License
// as published by the Free Software Foundation; either version 2
// of the License, or (at your option) any later version.
//
// This program is distributed in the hope that it will be useful,
// but WITHOUT ANY WARRANTY; without even the implied warranty of
// MERCHANTABILITY or FITNESS FOR A PARTICULAR PURPOSE.  See the
// GNU General Public License for more details.

//! Compounding growth of a staked ADA position.
//!
//! A position earns rewards at the end of every payout epoch and its price
//! drifts by a fixed factor every day. The simulation is written over an
//! abstract [`number::Number`], so that the order in which amounts are
//! added, multiplied and divided is established once, for whatever
//! arithmetic a caller supplies.

pub mod calendar;
pub mod engine;
pub mod export;
pub mod laws;
pub mod number;
pub mod pool;
pub mod report;
pub mod result;
pub mod text;
