use zero2prod::configuration::EmailClientSettings;
use zero2prod::domain::ValidationError;
use zero2prod::email_client::{
    conclude_send, EmailClient, EmailRequest, NotificationError, TransportEvent,
};
use zero2prod::subscriber_email::SubscriberEmail;

fn client() -> EmailClient {
    EmailClient::new(
        "http://localhost:8025".to_string(),
        SubscriberEmail::parse("sender@example.com".to_string()).unwrap(),
        "api-key-123".to_string(),
        200,
    )
}

#[test]
fn the_send_url_appends_the_fixed_path() {
    assert_eq!(client().send_url(), "http://localhost:8025/email/send");
}

#[test]
fn a_request_carries_the_configuration_and_the_caller_content() {
    let client = client();
    let recipient = SubscriberEmail::parse("to@example.com".to_string()).unwrap();
    let request = client.build_request(&recipient, "Welcome!", "<p>Hi</p>", "Hi");
    assert_eq!(request.url, "http://localhost:8025/email/send");
    assert_eq!(request.api_key, "api-key-123");
    assert_eq!(request.from, "sender@example.com");
    assert_eq!(request.to, "to@example.com");
    assert_eq!(request.subject, "Welcome!");
    assert_eq!(request.body_html, "<p>Hi</p>");
    assert_eq!(request.body_text, "Hi");
    assert!(request.is_transactional);
}

#[test]
fn the_form_body_is_encoded_exactly() {
    let request = EmailRequest {
        url: "http://localhost:8025/email/send".to_string(),
        api_key: "key".to_string(),
        subject: "hello world".to_string(),
        from: "from@example.com".to_string(),
        to: "to@example.com".to_string(),
        body_html: "<b>Hi</b>".to_string(),
        body_text: "Hi & bye".to_string(),
        is_transactional: true,
    };
    let expected = "Apikey=key&Subject=hello+world&From=from%40example.com\
&To=to%40example.com&BodyHtml=%3Cb%3EHi%3C%2Fb%3E&BodyText=Hi+%26+bye\
&IsTransactional=true";
    assert_eq!(request.form_body(), expected.as_bytes().to_vec());
}

#[test]
fn the_form_body_percent_encodes_utf8_bytes_in_upper_hex() {
    let request = EmailRequest {
        url: "u".to_string(),
        api_key: "k".to_string(),
        subject: "café".to_string(),
        from: "a@b.cd".to_string(),
        to: "c@d.ef".to_string(),
        body_html: "*-._ ok".to_string(),
        body_text: "".to_string(),
        is_transactional: false,
    };
    let expected = "Apikey=k&Subject=caf%C3%A9&From=a%40b.cd&To=c%40d.ef\
&BodyHtml=*-._+ok&BodyText=&IsTransactional=false";
    assert_eq!(request.form_body(), expected.as_bytes().to_vec());
}

#[test]
fn a_2xx_response_concludes_the_send_successfully() {
    assert!(conclude_send(TransportEvent::Response(200)).is_ok());
    assert!(conclude_send(TransportEvent::Response(204)).is_ok());
}

#[test]
fn a_non_success_response_is_a_remote_rejection_carrying_the_status() {
    assert_eq!(
        conclude_send(TransportEvent::Response(500)).unwrap_err(),
        NotificationError::RemoteRejected(500)
    );
    assert_eq!(
        conclude_send(TransportEvent::Response(301)).unwrap_err(),
        NotificationError::RemoteRejected(301)
    );
}

#[test]
fn an_elapsed_timeout_is_a_timeout_error() {
    assert_eq!(
        conclude_send(TransportEvent::TimedOut).unwrap_err(),
        NotificationError::Timeout
    );
}

#[test]
fn a_transport_fault_is_a_transport_failure() {
    assert_eq!(
        conclude_send(TransportEvent::Failed).unwrap_err(),
        NotificationError::TransportFailure
    );
}

#[test]
fn settings_validate_the_sender_and_build_the_client() {
    let settings = EmailClientSettings {
        base_url: "http://localhost:8025".to_string(),
        sender_email: "sender@example.com".to_string(),
        api_key: "api-key-123".to_string(),
        timeout_milliseconds: 200,
    };
    assert_eq!(settings.timeout(), 200);
    assert_eq!(settings.sender().unwrap().as_ref(), "sender@example.com");
    let client = settings.client().unwrap();
    assert_eq!(client.base_url, "http://localhost:8025");
    assert_eq!(client.sender.as_ref(), "sender@example.com");
    assert_eq!(client.timeout_milliseconds, 200);
}

#[test]
fn settings_with_an_invalid_sender_fail_to_build_the_client() {
    let settings = EmailClientSettings {
        base_url: "http://localhost:8025".to_string(),
        sender_email: "not-an-email".to_string(),
        api_key: "api-key-123".to_string(),
        timeout_milliseconds: 200,
    };
    assert_eq!(settings.client().unwrap_err(), ValidationError::InvalidEmail);
}
