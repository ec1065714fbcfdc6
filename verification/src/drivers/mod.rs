pub mod battery;
pub mod buzzer;
pub mod oled;
pub mod touch;
