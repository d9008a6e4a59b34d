//! Fixed-point sine/cosine by table lookup, and the voltage transforms of
//! field-oriented motor control (inverse Park, modified inverse Clarke and
//! space-vector PWM) built on them.
pub mod fixed_point;
pub mod trig;
pub mod foc;
pub mod svpwm;
pub mod table;
