pub mod configuration;
pub mod domain;
pub mod email_client;
pub mod form_body;
pub mod new_subscriber;
pub mod service;
pub mod store;
pub mod subscriber_email;
pub mod subscriber_name;
pub mod telemetry;
