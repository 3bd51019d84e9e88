//! A verified core for a twelve-tone equal-temperament instrument tuner:
//! channel downmixing, frequency-to-note mapping with a cents deviation,
//! tuning-feedback text with a deviation color gradient, and the rate-limited
//! capture loop that ties sample ingestion to rendering.

pub mod capture;
pub mod detect;
pub mod info;
pub mod ui;
