//! Transactional e-mail: the message templates, their HTML rendering, and
//! the envelope (sender, recipient, subject, HTML and text bodies) handed to
//! the mail transport.
use vstd::prelude::*;
use crate::clock::{in_date_range, utc_date_of, utc_date_text};
use crate::html::{
    html_escape, html_to_plain_text, html_to_text, lemma_tagged_holds, lemma_tagged_num_holds, push_tagged, push_tagged_num,
    tagged, tagged_num,
};
use crate::text::{decimal, has_substring, lemma_substring_concat, push_decimal, push_str, to_owned_string};

verus! {

broadcast use vstd::string::group_string_axioms;

/// Why an e-mail could not be sent.
#[derive(Debug)]
pub enum EmailError {
    BuildError(String),
    SendError(String),
    TemplateError(String),
}

/// The opening of every message, with its title.
pub open spec fn page_head(title: Seq<char>) -> Seq<char> {
    "<!DOCTYPE html>\n<html>\n<head><meta charset=\"utf-8\"><title>"@ + title + "</title></head>\n<body>\n"@
}

/// The closing of every message.
pub open spec fn page_tail() -> Seq<char> {
    "</body>\n</html>\n"@
}

fn push_head(out: &mut String, title: &str)
    ensures
        final(out)@ == old(out)@ + page_head(title@),
{
    push_str(out, "<!DOCTYPE html>\n<html>\n<head><meta charset=\"utf-8\"><title>");
    push_str(out, title);
    push_str(out, "</title></head>\n<body>\n");
    assert(out@ =~= old(out)@ + page_head(title@));
}

fn push_tail(out: &mut String)
    ensures
        final(out)@ == old(out)@ + page_tail(),
{
    push_str(out, "</body>\n</html>\n");
}

// ---------------------------------------------------------------------------
// Welcome
// ---------------------------------------------------------------------------

/// Sent to the owner of a newly provisioned site.
pub struct WelcomeEmail {
    pub owner_name: String,
    pub domain: String,
    pub email: String,
    pub temp_password: String,
}

pub open spec fn welcome_html(owner: Seq<char>, domain: Seq<char>, email: Seq<char>, password: Seq<char>) -> Seq<char> {
    page_head("Welcome to Lillpepe"@)
        + tagged("<h1>Welcome to Lillpepe, "@, owner, "!</h1>\n"@)
        + tagged("<p>Your site <strong>"@, domain, "</strong> is ready.</p>\n"@)
        + tagged("<p>Sign in as <strong>"@, email, "</strong>"@)
        + tagged(" with the temporary password <code>"@, password, "</code>.</p>\n"@)
        + "<p>Please change your password after your first login.</p>\n"@
        + page_tail()
}

impl WelcomeEmail {
    /// The HTML body; every field is escaped.
    pub fn render(&self) -> (res: Result<String, EmailError>)
        ensures
            res == Ok::<String, EmailError>(res->Ok_0),
            res->Ok_0@ == welcome_html(self.owner_name@, self.domain@, self.email@, self.temp_password@),
    {
        let mut out = String::new();
        push_head(&mut out, "Welcome to Lillpepe");
        push_tagged(&mut out, "<h1>Welcome to Lillpepe, ", self.owner_name.as_str(), "!</h1>\n");
        push_tagged(&mut out, "<p>Your site <strong>", self.domain.as_str(), "</strong> is ready.</p>\n");
        push_tagged(&mut out, "<p>Sign in as <strong>", self.email.as_str(), "</strong>");
        push_tagged(&mut out, " with the temporary password <code>", self.temp_password.as_str(), "</code>.</p>\n");
        push_str(&mut out, "<p>Please change your password after your first login.</p>\n");
        push_tail(&mut out);
        assert(out@ =~= welcome_html(self.owner_name@, self.domain@, self.email@, self.temp_password@));
        Ok(out)
    }
}

// ---------------------------------------------------------------------------
// Payment received
// ---------------------------------------------------------------------------

/// Sent after a successful charge.
pub struct PaymentSuccessEmail {
    pub owner_name: String,
    pub domain: String,
    pub amount: String,
    pub payment_date: String,
    pub invoice_number: String,
    pub invoice_url: String,
    pub next_billing_date: String,
}

pub open spec fn payment_success_html(e: PaymentSuccessEmail) -> Seq<char> {
    page_head("Payment Received"@)
        + "<h1>Payment Received</h1>\n"@
        + tagged("<p>Hello "@, e.owner_name@, ",</p>\n"@)
        + tagged("<p>We received your payment of €"@, e.amount@, ""@)
        + tagged(" for <strong>"@, e.domain@, "</strong>"@)
        + tagged(" on "@, e.payment_date@, ".</p>\n"@)
        + tagged("<p>Invoice "@, e.invoice_number@, ": "@)
        + tagged("<a href=\""@, e.invoice_url@, "\">view invoice</a></p>\n"@)
        + tagged("<p>Your next billing date is "@, e.next_billing_date@, ".</p>\n"@)
        + page_tail()
}

/// The address of an invoice on the payment dashboard.
pub open spec fn invoice_url(invoice_id: Seq<char>) -> Seq<char> {
    "https://dashboard.stripe.com/invoices/"@ + invoice_id
}

/// Seconds in a day.
pub const SECS_PER_DAY: i64 = 86400;

impl PaymentSuccessEmail {
    /// The message for a payment of `amount` received at time `now` on
    /// invoice `invoice_id`; the next billing date is a week later.
    pub fn for_invoice(owner_name: &str, domain: &str, amount: &str, invoice_id: &str, now: i64) -> (res: PaymentSuccessEmail)
        requires
            in_date_range(now as int),
            in_date_range(now + 7 * 86400),
        ensures
            res.owner_name@ == owner_name@,
            res.domain@ == domain@,
            res.amount@ == amount@,
            res.payment_date@ == utc_date_of(now as int),
            res.invoice_number@ == invoice_id@,
            res.invoice_url@ == invoice_url(invoice_id@),
            res.next_billing_date@ == utc_date_of(now + 7 * 86400),
    {
        let mut url = String::new();
        push_str(&mut url, "https://dashboard.stripe.com/invoices/");
        push_str(&mut url, invoice_id);
        PaymentSuccessEmail {
            owner_name: to_owned_string(owner_name),
            domain: to_owned_string(domain),
            amount: to_owned_string(amount),
            payment_date: utc_date_text(now),
            invoice_number: to_owned_string(invoice_id),
            invoice_url: url,
            next_billing_date: utc_date_text(now + 7 * SECS_PER_DAY),
        }
    }

    /// The HTML body; every field is escaped.
    pub fn render(&self) -> (res: Result<String, EmailError>)
        ensures
            res == Ok::<String, EmailError>(res->Ok_0),
            res->Ok_0@ == payment_success_html(*self),
    {
        let mut out = String::new();
        push_head(&mut out, "Payment Received");
        push_str(&mut out, "<h1>Payment Received</h1>\n");
        push_tagged(&mut out, "<p>Hello ", self.owner_name.as_str(), ",</p>\n");
        push_tagged(&mut out, "<p>We received your payment of €", self.amount.as_str(), "");
        push_tagged(&mut out, " for <strong>", self.domain.as_str(), "</strong>");
        push_tagged(&mut out, " on ", self.payment_date.as_str(), ".</p>\n");
        push_tagged(&mut out, "<p>Invoice ", self.invoice_number.as_str(), ": ");
        push_tagged(&mut out, "<a href=\"", self.invoice_url.as_str(), "\">view invoice</a></p>\n");
        push_tagged(&mut out, "<p>Your next billing date is ", self.next_billing_date.as_str(), ".</p>\n");
        push_tail(&mut out);
        assert(out@ =~= payment_success_html(*self));
        Ok(out)
    }
}

// ---------------------------------------------------------------------------
// Payment failed
// ---------------------------------------------------------------------------

/// Sent after a failed charge.
pub struct PaymentFailedEmail {
    pub owner_name: String,
    pub domain: String,
    pub amount: String,
    pub attempted_date: String,
    pub grace_period_days: u8,
}

pub open spec fn payment_failed_html(e: PaymentFailedEmail) -> Seq<char> {
    page_head("Payment Failed"@)
        + "<h1>Payment Failed</h1>\n"@
        + tagged("<p>Hello "@, e.owner_name@, ",</p>\n"@)
        + tagged("<p>We could not charge €"@, e.amount@, ""@)
        + tagged(" for <strong>"@, e.domain@, "</strong>"@)
        + tagged(" on "@, e.attempted_date@, ".</p>\n"@)
        + tagged_num("<p>Please update your payment method within "@, e.grace_period_days as nat, " days to keep your site online.</p>\n"@)
        + page_tail()
}

/// Days an account stays online after a failed charge.
pub const PAYMENT_GRACE_DAYS: u8 = 7;

impl PaymentFailedEmail {
    /// The message for a charge of `amount` that failed at time `now`.
    pub fn for_attempt(owner_name: &str, domain: &str, amount: &str, now: i64) -> (res: PaymentFailedEmail)
        requires
            in_date_range(now as int),
        ensures
            res.owner_name@ == owner_name@,
            res.domain@ == domain@,
            res.amount@ == amount@,
            res.attempted_date@ == utc_date_of(now as int),
            res.grace_period_days == PAYMENT_GRACE_DAYS,
    {
        PaymentFailedEmail {
            owner_name: to_owned_string(owner_name),
            domain: to_owned_string(domain),
            amount: to_owned_string(amount),
            attempted_date: utc_date_text(now),
            grace_period_days: PAYMENT_GRACE_DAYS,
        }
    }

    /// The HTML body; every field is escaped.
    pub fn render(&self) -> (res: Result<String, EmailError>)
        ensures
            res == Ok::<String, EmailError>(res->Ok_0),
            res->Ok_0@ == payment_failed_html(*self),
    {
        let mut out = String::new();
        push_head(&mut out, "Payment Failed");
        push_str(&mut out, "<h1>Payment Failed</h1>\n");
        push_tagged(&mut out, "<p>Hello ", self.owner_name.as_str(), ",</p>\n");
        push_tagged(&mut out, "<p>We could not charge €", self.amount.as_str(), "");
        push_tagged(&mut out, " for <strong>", self.domain.as_str(), "</strong>");
        push_tagged(&mut out, " on ", self.attempted_date.as_str(), ".</p>\n");
        push_tagged_num(
            &mut out,
            "<p>Please update your payment method within ",
            self.grace_period_days as u64,
            " days to keep your site online.</p>\n",
        );
        push_tail(&mut out);
        assert(out@ =~= payment_failed_html(*self));
        Ok(out)
    }
}

// ---------------------------------------------------------------------------
// Subscription renewing
// ---------------------------------------------------------------------------

/// Sent a few days before a subscription renews.
pub struct SubscriptionExpiringEmail {
    pub owner_name: String,
    pub domain: String,
    pub days_until: u8,
    pub amount: String,
    pub billing_date: String,
    pub payment_method: String,
}

pub open spec fn subscription_expiring_html(e: SubscriptionExpiringEmail) -> Seq<char> {
    page_head("Subscription Renewing Soon"@)
        + "<h1>Subscription Renewing Soon</h1>\n"@
        + tagged("<p>Hello "@, e.owner_name@, ",</p>\n"@)
        + tagged("<p>The subscription of <strong>"@, e.domain@, "</strong>"@)
        + tagged_num(" renews in "@, e.days_until as nat, " days"@)
        + tagged(", on "@, e.billing_date@, ".</p>\n"@)
        + tagged("<p>Amount: €"@, e.amount@, "</p>\n"@)
        + tagged("<p>Payment method: "@, e.payment_method@, "</p>\n"@)
        + page_tail()
}

impl SubscriptionExpiringEmail {
    /// The notice, at time `now`, of a renewal of `amount` in `days_until`
    /// days.
    pub fn for_renewal(owner_name: &str, domain: &str, days_until: u8, amount: &str, now: i64) -> (res: SubscriptionExpiringEmail)
        requires
            in_date_range(now + days_until * 86400),
        ensures
            res.owner_name@ == owner_name@,
            res.domain@ == domain@,
            res.days_until == days_until,
            res.amount@ == amount@,
            res.billing_date@ == utc_date_of(now + days_until * 86400),
            res.payment_method@ == "Card ending in ••••"@,
    {
        SubscriptionExpiringEmail {
            owner_name: to_owned_string(owner_name),
            domain: to_owned_string(domain),
            days_until,
            amount: to_owned_string(amount),
            billing_date: utc_date_text(now + days_until as i64 * SECS_PER_DAY),
            payment_method: to_owned_string("Card ending in ••••"),
        }
    }

    /// The HTML body; every field is escaped.
    pub fn render(&self) -> (res: Result<String, EmailError>)
        ensures
            res == Ok::<String, EmailError>(res->Ok_0),
            res->Ok_0@ == subscription_expiring_html(*self),
    {
        let mut out = String::new();
        push_head(&mut out, "Subscription Renewing Soon");
        push_str(&mut out, "<h1>Subscription Renewing Soon</h1>\n");
        push_tagged(&mut out, "<p>Hello ", self.owner_name.as_str(), ",</p>\n");
        push_tagged(&mut out, "<p>The subscription of <strong>", self.domain.as_str(), "</strong>");
        push_tagged_num(&mut out, " renews in ", self.days_until as u64, " days");
        push_tagged(&mut out, ", on ", self.billing_date.as_str(), ".</p>\n");
        push_tagged(&mut out, "<p>Amount: €", self.amount.as_str(), "</p>\n");
        push_tagged(&mut out, "<p>Payment method: ", self.payment_method.as_str(), "</p>\n");
        push_tail(&mut out);
        assert(out@ =~= subscription_expiring_html(*self));
        Ok(out)
    }
}

// ---------------------------------------------------------------------------
// Account suspended
// ---------------------------------------------------------------------------

/// Sent when an account is suspended.
pub struct AccountSuspendedEmail {
    pub owner_name: String,
    pub domain: String,
    pub suspension_reason: String,
    pub grace_period_days: u8,
    pub resolution_steps: String,
    pub outstanding_amount: String,
}

pub open spec fn account_suspended_html(e: AccountSuspendedEmail) -> Seq<char> {
    page_head("Account Suspended"@)
        + "<h1>Account Suspended</h1>\n"@
        + tagged("<p>Hello "@, e.owner_name@, ",</p>\n"@)
        + tagged("<p>Your site <strong>"@, e.domain@, "</strong> has been suspended"@)
        + tagged(": "@, e.suspension_reason@, ".</p>\n"@)
        + tagged("<p>Outstanding amount: €"@, e.outstanding_amount@, "</p>\n"@)
        + tagged("<p>"@, e.resolution_steps@, ""@)
        + tagged_num(" within "@, e.grace_period_days as nat, " days to restore it.</p>\n"@)
        + page_tail()
}

/// Days a suspended account is kept before deletion.
pub const SUSPENSION_GRACE_DAYS: u8 = 30;

impl AccountSuspendedEmail {
    /// The notice of a suspension for an overdue payment.
    pub fn for_overdue(owner_name: &str, domain: &str, outstanding_amount: &str) -> (res: AccountSuspendedEmail)
        ensures
            res.owner_name@ == owner_name@,
            res.domain@ == domain@,
            res.suspension_reason@ == "Payment overdue"@,
            res.grace_period_days == SUSPENSION_GRACE_DAYS,
            res.resolution_steps@ == "Update your payment method and clear outstanding balance"@,
            res.outstanding_amount@ == outstanding_amount@,
    {
        AccountSuspendedEmail {
            owner_name: to_owned_string(owner_name),
            domain: to_owned_string(domain),
            suspension_reason: to_owned_string("Payment overdue"),
            grace_period_days: SUSPENSION_GRACE_DAYS,
            resolution_steps: to_owned_string("Update your payment method and clear outstanding balance"),
            outstanding_amount: to_owned_string(outstanding_amount),
        }
    }

    /// The HTML body; every field is escaped.
    pub fn render(&self) -> (res: Result<String, EmailError>)
        ensures
            res == Ok::<String, EmailError>(res->Ok_0),
            res->Ok_0@ == account_suspended_html(*self),
    {
        let mut out = String::new();
        push_head(&mut out, "Account Suspended");
        push_str(&mut out, "<h1>Account Suspended</h1>\n");
        push_tagged(&mut out, "<p>Hello ", self.owner_name.as_str(), ",</p>\n");
        push_tagged(&mut out, "<p>Your site <strong>", self.domain.as_str(), "</strong> has been suspended");
        push_tagged(&mut out, ": ", self.suspension_reason.as_str(), ".</p>\n");
        push_tagged(&mut out, "<p>Outstanding amount: €", self.outstanding_amount.as_str(), "</p>\n");
        push_tagged(&mut out, "<p>", self.resolution_steps.as_str(), "");
        push_tagged_num(&mut out, " within ", self.grace_period_days as u64, " days to restore it.</p>\n");
        push_tail(&mut out);
        assert(out@ =~= account_suspended_html(*self));
        Ok(out)
    }
}

// ---------------------------------------------------------------------------
// Password reset
// ---------------------------------------------------------------------------

/// Sent when a password reset is requested.
pub struct PasswordResetEmail {
    pub owner_name: String,
    pub domain: String,
    pub reset_link: String,
    pub expires_in_minutes: u32,
}

pub open spec fn password_reset_html(e: PasswordResetEmail) -> Seq<char> {
    page_head("Password Reset Request"@)
        + "<h1>Password Reset Request</h1>\n"@
        + tagged("<p>Hello "@, e.owner_name@, ",</p>\n"@)
        + tagged("<p>A password reset was requested for <strong>"@, e.domain@, "</strong>.</p>\n"@)
        + tagged("<p><a href=\""@, e.reset_link@, "\">Choose a new password</a></p>\n"@)
        + tagged_num("<p>The link expires in "@, e.expires_in_minutes as nat, " minutes.</p>\n"@)
        + page_tail()
}

/// The reset link of a site: `https://<domain>/reset-password?token=<token>`.
pub open spec fn reset_link(domain: Seq<char>, token: Seq<char>) -> Seq<char> {
    "https://"@ + domain + "/reset-password?token="@ + token
}

/// Minutes a password reset link stays valid.
pub const RESET_LINK_MINUTES: u32 = 60;

impl PasswordResetEmail {
    /// The message carrying reset token `reset_token` for a site.
    pub fn for_token(owner_name: &str, domain: &str, reset_token: &str) -> (res: PasswordResetEmail)
        ensures
            res.owner_name@ == owner_name@,
            res.domain@ == domain@,
            res.reset_link@ == reset_link(domain@, reset_token@),
            res.expires_in_minutes == RESET_LINK_MINUTES,
    {
        let mut link = String::new();
        push_str(&mut link, "https://");
        push_str(&mut link, domain);
        push_str(&mut link, "/reset-password?token=");
        push_str(&mut link, reset_token);
        PasswordResetEmail {
            owner_name: to_owned_string(owner_name),
            domain: to_owned_string(domain),
            reset_link: link,
            expires_in_minutes: RESET_LINK_MINUTES,
        }
    }

    /// The HTML body; every field is escaped.
    pub fn render(&self) -> (res: Result<String, EmailError>)
        ensures
            res == Ok::<String, EmailError>(res->Ok_0),
            res->Ok_0@ == password_reset_html(*self),
    {
        let mut out = String::new();
        push_head(&mut out, "Password Reset Request");
        push_str(&mut out, "<h1>Password Reset Request</h1>\n");
        push_tagged(&mut out, "<p>Hello ", self.owner_name.as_str(), ",</p>\n");
        push_tagged(&mut out, "<p>A password reset was requested for <strong>", self.domain.as_str(), "</strong>.</p>\n");
        push_tagged(&mut out, "<p><a href=\"", self.reset_link.as_str(), "\">Choose a new password</a></p>\n");
        push_tagged_num(&mut out, "<p>The link expires in ", self.expires_in_minutes as u64, " minutes.</p>\n");
        push_tail(&mut out);
        assert(out@ =~= password_reset_html(*self));
        Ok(out)
    }
}

// ---------------------------------------------------------------------------
// Subjects and envelopes
// ---------------------------------------------------------------------------

/// The messages the platform sends.
pub enum Notice {
    Welcome,
    PaymentReceived,
    PaymentFailed,
    Renewal(u8),
    Suspended,
    PasswordReset,
}

impl Notice {
    /// The subject line of the message.
    pub fn subject(&self) -> (res: String)
        ensures
            res@ == match self {
                Notice::Welcome => "Welcome to Lillpepe!"@,
                Notice::PaymentReceived => "Payment Received"@,
                Notice::PaymentFailed => "Payment Failed - Action Required"@,
                Notice::Renewal(d) => "Subscription Renewing in "@ + decimal(*d as nat) + " Days"@,
                Notice::Suspended => "Account Suspended"@,
                Notice::PasswordReset => "Password Reset Request"@,
            },
    {
        match self {
            Notice::Welcome => to_owned_string("Welcome to Lillpepe!"),
            Notice::PaymentReceived => to_owned_string("Payment Received"),
            Notice::PaymentFailed => to_owned_string("Payment Failed - Action Required"),
            Notice::Renewal(d) => renewal_subject(*d),
            Notice::Suspended => to_owned_string("Account Suspended"),
            Notice::PasswordReset => to_owned_string("Password Reset Request"),
        }
    }
}

/// The subject of a renewal notice: `Subscription Renewing in <n> Days`.
pub fn renewal_subject(days_until: u8) -> (res: String)
    ensures
        res@ == "Subscription Renewing in "@ + decimal(days_until as nat) + " Days"@,
{
    let mut s = String::new();
    push_str(&mut s, "Subscription Renewing in ");
    push_decimal(&mut s, days_until as u64);
    push_str(&mut s, " Days");
    s
}

/// A message ready for the mail transport.
pub struct EmailEnvelope {
    pub from: String,
    pub to: String,
    pub subject: String,
    pub html_body: String,
    pub text_body: String,
}

/// A mailbox: `Name <address>`.
pub open spec fn mailbox(name: Seq<char>, address: Seq<char>) -> Seq<char> {
    name + " <"@ + address + ">"@
}

/// The recipient mailbox: `Name <address>` when a name is given, the bare
/// address otherwise.
pub open spec fn recipient(to: Seq<char>, to_name: Option<Seq<char>>) -> Seq<char> {
    match to_name {
        Some(n) => mailbox(n, to),
        None => to,
    }
}

fn mailbox_text(name: &str, address: &str) -> (res: String)
    ensures
        res@ == mailbox(name@, address@),
{
    let mut s = String::new();
    push_str(&mut s, name);
    push_str(&mut s, " <");
    push_str(&mut s, address);
    push_str(&mut s, ">");
    s
}

/// The envelope of a message from `from_name <from_address>` to `to`, with
/// the rendered HTML body and its plain-text alternative.
pub fn compose(
    from_name: &str,
    from_address: &str,
    to: &str,
    to_name: Option<&str>,
    subject: &str,
    html_body: String,
) -> (res: EmailEnvelope)
    ensures
        res.from@ == mailbox(from_name@, from_address@),
        res.to@ == recipient(to@, match to_name { Some(n) => Some(n@), None => None }),
        res.subject@ == subject@,
        res.html_body@ == html_body@,
        res.text_body@ == html_to_text(html_body@),
{
    let from = mailbox_text(from_name, from_address);
    let to_formatted = match to_name {
        Some(name) => mailbox_text(name, to),
        None => to_owned_string(to),
    };
    let text_body = html_to_plain_text(html_body.as_str());
    EmailEnvelope { from, to: to_formatted, subject: to_owned_string(subject), html_body, text_body }
}

/// The activity-log note of a sent message: `<what> email sent to <address>`.
pub fn email_sent_note(what: &str, to: &str) -> (res: String)
    ensures
        res@ == what@ + " email sent to "@ + to@,
{
    let mut s = String::new();
    push_str(&mut s, what);
    push_str(&mut s, " email sent to ");
    push_str(&mut s, to);
    s
}


// ---------------------------------------------------------------------------
// What every message holds
// ---------------------------------------------------------------------------

/// A welcome message holds, escaped, the owner's name, the site, the sign-in
/// address and the temporary password, each right after the words that
/// introduce it.
pub proof fn law_welcome_mentions_every_field(owner: Seq<char>, domain: Seq<char>, email: Seq<char>, password: Seq<char>)
    ensures
        ({
            let s = welcome_html(owner, domain, email, password);
            &&& has_substring(s, html_escape(owner))
            &&& has_substring(s, "<h1>Welcome to Lillpepe, "@ + html_escape(owner))
            &&& has_substring(s, html_escape(domain))
            &&& has_substring(s, "<p>Your site <strong>"@ + html_escape(domain))
            &&& has_substring(s, html_escape(email))
            &&& has_substring(s, "<p>Sign in as <strong>"@ + html_escape(email))
            &&& has_substring(s, html_escape(password))
            &&& has_substring(s, " with the temporary password <code>"@ + html_escape(password))
        }),
{
    broadcast use lemma_substring_concat;
    lemma_tagged_holds("<h1>Welcome to Lillpepe, "@, owner, "!</h1>\n"@);
    lemma_tagged_holds("<p>Your site <strong>"@, domain, "</strong> is ready.</p>\n"@);
    lemma_tagged_holds("<p>Sign in as <strong>"@, email, "</strong>"@);
    lemma_tagged_holds(" with the temporary password <code>"@, password, "</code>.</p>\n"@);
}

/// A payment receipt holds, escaped, the owner's name, the amount, the site,
/// the payment date, the invoice number and address and the next billing
/// date, each right after the words that introduce it.
pub proof fn law_payment_success_mentions_every_field(e: PaymentSuccessEmail)
    ensures
        ({
            let s = payment_success_html(e);
            &&& has_substring(s, html_escape(e.owner_name@))
            &&& has_substring(s, "<p>Hello "@ + html_escape(e.owner_name@))
            &&& has_substring(s, html_escape(e.amount@))
            &&& has_substring(s, "<p>We received your payment of €"@ + html_escape(e.amount@))
            &&& has_substring(s, html_escape(e.domain@))
            &&& has_substring(s, " for <strong>"@ + html_escape(e.domain@))
            &&& has_substring(s, html_escape(e.payment_date@))
            &&& has_substring(s, " on "@ + html_escape(e.payment_date@))
            &&& has_substring(s, html_escape(e.invoice_number@))
            &&& has_substring(s, "<p>Invoice "@ + html_escape(e.invoice_number@))
            &&& has_substring(s, html_escape(e.invoice_url@))
            &&& has_substring(s, "<a href=\""@ + html_escape(e.invoice_url@))
            &&& has_substring(s, html_escape(e.next_billing_date@))
            &&& has_substring(s, "<p>Your next billing date is "@ + html_escape(e.next_billing_date@))
        }),
{
    broadcast use lemma_substring_concat;
    lemma_tagged_holds("<p>Hello "@, e.owner_name@, ",</p>\n"@);
    lemma_tagged_holds("<p>We received your payment of €"@, e.amount@, ""@);
    lemma_tagged_holds(" for <strong>"@, e.domain@, "</strong>"@);
    lemma_tagged_holds(" on "@, e.payment_date@, ".</p>\n"@);
    lemma_tagged_holds("<p>Invoice "@, e.invoice_number@, ": "@);
    lemma_tagged_holds("<a href=\""@, e.invoice_url@, "\">view invoice</a></p>\n"@);
    lemma_tagged_holds("<p>Your next billing date is "@, e.next_billing_date@, ".</p>\n"@);
}

/// A payment-failed notice holds, escaped, the owner's name, the amount, the
/// site and the date of the attempt, and the grace period in days, each right
/// after the words that introduce it.
pub proof fn law_payment_failed_mentions_every_field(e: PaymentFailedEmail)
    ensures
        ({
            let s = payment_failed_html(e);
            &&& has_substring(s, html_escape(e.owner_name@))
            &&& has_substring(s, "<p>Hello "@ + html_escape(e.owner_name@))
            &&& has_substring(s, html_escape(e.amount@))
            &&& has_substring(s, "<p>We could not charge €"@ + html_escape(e.amount@))
            &&& has_substring(s, html_escape(e.domain@))
            &&& has_substring(s, " for <strong>"@ + html_escape(e.domain@))
            &&& has_substring(s, html_escape(e.attempted_date@))
            &&& has_substring(s, " on "@ + html_escape(e.attempted_date@))
            &&& has_substring(s, decimal(e.grace_period_days as nat))
            &&& has_substring(s, "<p>Please update your payment method within "@ + decimal(e.grace_period_days as nat))
        }),
{
    broadcast use lemma_substring_concat;
    lemma_tagged_holds("<p>Hello "@, e.owner_name@, ",</p>\n"@);
    lemma_tagged_holds("<p>We could not charge €"@, e.amount@, ""@);
    lemma_tagged_holds(" for <strong>"@, e.domain@, "</strong>"@);
    lemma_tagged_holds(" on "@, e.attempted_date@, ".</p>\n"@);
    lemma_tagged_num_holds("<p>Please update your payment method within "@, e.grace_period_days as nat, " days to keep your site online.</p>\n"@);
}

/// A renewal notice holds, escaped, the owner's name, the site, the days left,
/// the billing date, the amount and the payment method, each right after the
/// words that introduce it.
pub proof fn law_subscription_expiring_mentions_every_field(e: SubscriptionExpiringEmail)
    ensures
        ({
            let s = subscription_expiring_html(e);
            &&& has_substring(s, html_escape(e.owner_name@))
            &&& has_substring(s, "<p>Hello "@ + html_escape(e.owner_name@))
            &&& has_substring(s, html_escape(e.domain@))
            &&& has_substring(s, "<p>The subscription of <strong>"@ + html_escape(e.domain@))
            &&& has_substring(s, decimal(e.days_until as nat))
            &&& has_substring(s, " renews in "@ + decimal(e.days_until as nat))
            &&& has_substring(s, html_escape(e.billing_date@))
            &&& has_substring(s, ", on "@ + html_escape(e.billing_date@))
            &&& has_substring(s, html_escape(e.amount@))
            &&& has_substring(s, "<p>Amount: €"@ + html_escape(e.amount@))
            &&& has_substring(s, html_escape(e.payment_method@))
            &&& has_substring(s, "<p>Payment method: "@ + html_escape(e.payment_method@))
        }),
{
    broadcast use lemma_substring_concat;
    lemma_tagged_holds("<p>Hello "@, e.owner_name@, ",</p>\n"@);
    lemma_tagged_holds("<p>The subscription of <strong>"@, e.domain@, "</strong>"@);
    lemma_tagged_num_holds(" renews in "@, e.days_until as nat, " days"@);
    lemma_tagged_holds(", on "@, e.billing_date@, ".</p>\n"@);
    lemma_tagged_holds("<p>Amount: €"@, e.amount@, "</p>\n"@);
    lemma_tagged_holds("<p>Payment method: "@, e.payment_method@, "</p>\n"@);
}

/// A suspension notice holds, escaped, the owner's name, the site, the reason,
/// the outstanding amount, the steps to resolve it and the grace period,
/// each right after the words that introduce it.
pub proof fn law_account_suspended_mentions_every_field(e: AccountSuspendedEmail)
    ensures
        ({
            let s = account_suspended_html(e);
            &&& has_substring(s, html_escape(e.owner_name@))
            &&& has_substring(s, "<p>Hello "@ + html_escape(e.owner_name@))
            &&& has_substring(s, html_escape(e.domain@))
            &&& has_substring(s, "<p>Your site <strong>"@ + html_escape(e.domain@))
            &&& has_substring(s, html_escape(e.suspension_reason@))
            &&& has_substring(s, ": "@ + html_escape(e.suspension_reason@))
            &&& has_substring(s, html_escape(e.outstanding_amount@))
            &&& has_substring(s, "<p>Outstanding amount: €"@ + html_escape(e.outstanding_amount@))
            &&& has_substring(s, html_escape(e.resolution_steps@))
            &&& has_substring(s, "<p>"@ + html_escape(e.resolution_steps@))
            &&& has_substring(s, decimal(e.grace_period_days as nat))
            &&& has_substring(s, " within "@ + decimal(e.grace_period_days as nat))
        }),
{
    broadcast use lemma_substring_concat;
    lemma_tagged_holds("<p>Hello "@, e.owner_name@, ",</p>\n"@);
    lemma_tagged_holds("<p>Your site <strong>"@, e.domain@, "</strong> has been suspended"@);
    lemma_tagged_holds(": "@, e.suspension_reason@, ".</p>\n"@);
    lemma_tagged_holds("<p>Outstanding amount: €"@, e.outstanding_amount@, "</p>\n"@);
    lemma_tagged_holds("<p>"@, e.resolution_steps@, ""@);
    lemma_tagged_num_holds(" within "@, e.grace_period_days as nat, " days to restore it.</p>\n"@);
}

/// A password-reset message holds, escaped, the owner's name, the site and
/// the reset link, and the link's lifetime in minutes, each right after the
/// words that introduce it.
pub proof fn law_password_reset_mentions_every_field(e: PasswordResetEmail)
    ensures
        ({
            let s = password_reset_html(e);
            &&& has_substring(s, html_escape(e.owner_name@))
            &&& has_substring(s, "<p>Hello "@ + html_escape(e.owner_name@))
            &&& has_substring(s, html_escape(e.domain@))
            &&& has_substring(s, "<p>A password reset was requested for <strong>"@ + html_escape(e.domain@))
            &&& has_substring(s, html_escape(e.reset_link@))
            &&& has_substring(s, "<p><a href=\""@ + html_escape(e.reset_link@))
            &&& has_substring(s, decimal(e.expires_in_minutes as nat))
            &&& has_substring(s, "<p>The link expires in "@ + decimal(e.expires_in_minutes as nat))
        }),
{
    broadcast use lemma_substring_concat;
    lemma_tagged_holds("<p>Hello "@, e.owner_name@, ",</p>\n"@);
    lemma_tagged_holds("<p>A password reset was requested for <strong>"@, e.domain@, "</strong>.</p>\n"@);
    lemma_tagged_holds("<p><a href=\""@, e.reset_link@, "\">Choose a new password</a></p>\n"@);
    lemma_tagged_num_holds("<p>The link expires in "@, e.expires_in_minutes as nat, " minutes.</p>\n"@);
}

} // verus!
