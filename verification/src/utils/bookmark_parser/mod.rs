pub mod netscape;
pub mod round_trip;
