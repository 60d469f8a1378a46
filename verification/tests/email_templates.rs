use maangframe::email::{PaymentSuccessEmail, WelcomeEmail};

#[test]
fn test_welcome_email_renders() {
    let template = WelcomeEmail {
        owner_name: "Test User".to_string(),
        domain: "test.com".to_string(),
        email: "test@test.com".to_string(),
        temp_password: "temp123".to_string(),
    };

    let html = template.render().unwrap();
    assert!(html.contains("Welcome to Lillpepe"));
    assert!(html.contains("test.com"));
    assert!(html.contains("test@test.com"));
}

#[test]
fn test_payment_success_email_renders() {
    let template = PaymentSuccessEmail {
        owner_name: "Test User".to_string(),
        domain: "test.com".to_string(),
        amount: "10.00".to_string(),
        payment_date: "2025-10-20".to_string(),
        invoice_number: "INV_123".to_string(),
        invoice_url: "https://stripe.com/inv/123".to_string(),
        next_billing_date: "2025-10-27".to_string(),
    };

    let html = template.render().unwrap();
    assert!(html.contains("Payment Received"));
    assert!(html.contains("10.00"));
    assert!(html.contains("test.com"));
}
