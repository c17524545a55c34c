//! A price feed over the Alpha Vantage daily time series.
pub mod alpha_avantage;
pub mod asset_pair;
pub mod binary64;
pub mod error;
pub mod guarantees;
pub mod instant;
pub mod price;
pub mod series;
pub mod transport;
