//! Cooperative user-space threads: a fixed-capacity thread table, a tiered
//! scheduler (real-time deadline, lottery, round-robin) and a cooperative mutex.
pub mod mypthreads;
pub mod scheduler;
pub mod threadcity;
