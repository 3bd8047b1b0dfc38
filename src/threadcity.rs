//! A small city model driven by the thread library: vehicles moving on a grid
//! and bridges guarded by cooperative mutexes.
pub mod city;
pub mod entities;
