//! Native connectors to third-party REST APIs: configuration, URL building and the
//! rendering of API results as text.
pub mod catalog;
pub mod n8n;
pub mod notion;
pub mod railway;
pub mod render;
pub mod resend;
pub mod vercel;
pub mod posthog;
pub mod slack;
pub mod supabase;
pub mod stripe;
pub mod twilio;
pub mod sentry;
pub mod shopify;
pub mod reddit;
