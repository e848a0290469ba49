use zero2prod::subscriptions::{confirmation_bodies, ConfirmationEmail, SubscribeError};

fn mail() -> ConfirmationEmail {
    ConfirmationEmail {
        recipient: "ursula@example.com".to_string(),
        name: "Ursula".to_string(),
        subject: "Welcome!".to_string(),
        link: "http://127.0.0.1/subscribe/confirm?token=abc".to_string(),
    }
}

#[test]
fn bodies_are_rendered_from_both_templates() {
    let mut templates = tera::Tera::default();
    templates
        .add_raw_template("confirm-email.html", "<p>Hi {{ name }}, <a href=\"{{ link }}\">confirm</a></p>")
        .unwrap();
    templates
        .add_raw_template("confirm-email.txt", "Hi {{ name }}, visit {{ link }}")
        .unwrap();
    templates.autoescape_on(vec![]);
    let (html, text) = confirmation_bodies(&templates, &mail()).unwrap();
    assert_eq!(
        html,
        "<p>Hi Ursula, <a href=\"http://127.0.0.1/subscribe/confirm?token=abc\">confirm</a></p>"
    );
    assert_eq!(text, "Hi Ursula, visit http://127.0.0.1/subscribe/confirm?token=abc");
}

#[test]
fn missing_template_is_a_send_error() {
    let templates = tera::Tera::default();
    let err = confirmation_bodies(&templates, &mail()).unwrap_err();
    assert!(matches!(err, SubscribeError::SendEmailError(_)));
    assert_eq!(err.status_code(), 500);
}
