//! Verified core of the rhiaqey HTTP and WebSocket gateways: the client
//! whitelist, the answers the endpoints give, the settings of each gateway,
//! the routes they serve and what a WebSocket connection does with each frame.

pub mod access;
pub mod reply;
pub mod server;
pub mod http;
pub mod websocket;
