//! An email waiting to be handed to the mail service.

use vstd::prelude::*;

verus! {

/// Recipient, subject and HTML body of an email.
#[derive(Debug)]
pub struct MailCreator {
    recipient_name: String,
    recipient_email: String,
    subject: String,
    body: String,
}

impl MailCreator {
    /// The recipient's name.
    pub closed spec fn recipient_name_view(&self) -> Seq<char> {
        self.recipient_name@
    }

    /// The recipient's address.
    pub closed spec fn recipient_email_view(&self) -> Seq<char> {
        self.recipient_email@
    }

    /// The subject.
    pub closed spec fn subject_view(&self) -> Seq<char> {
        self.subject@
    }

    /// The HTML body.
    pub closed spec fn body_view(&self) -> Seq<char> {
        self.body@
    }

    /// An email with every part empty.
    pub fn new() -> (mail: Self)
        ensures
            mail.recipient_name_view() == Seq::<char>::empty(),
            mail.recipient_email_view() == Seq::<char>::empty(),
            mail.subject_view() == Seq::<char>::empty(),
            mail.body_view() == Seq::<char>::empty(),
    {
        MailCreator {
            recipient_name: String::new(),
            recipient_email: String::new(),
            subject: String::new(),
            body: String::new(),
        }
    }

    /// The email with the recipient's name set to `name`.
    pub fn add_recipient_name(self, name: &str) -> (mail: Self)
        ensures
            mail.recipient_name_view() == name@,
            mail.recipient_email_view() == self.recipient_email_view(),
            mail.subject_view() == self.subject_view(),
            mail.body_view() == self.body_view(),
    {
        let mut mail = self;
        mail.recipient_name = name.to_owned();
        mail
    }

    /// The email with the recipient's address set to `email`.
    pub fn add_recipient_email(self, email: &str) -> (mail: Self)
        ensures
            mail.recipient_name_view() == self.recipient_name_view(),
            mail.recipient_email_view() == email@,
            mail.subject_view() == self.subject_view(),
            mail.body_view() == self.body_view(),
    {
        let mut mail = self;
        mail.recipient_email = email.to_owned();
        mail
    }

    /// The email with the subject set to `subject`.
    pub fn add_subject(self, subject: &str) -> (mail: Self)
        ensures
            mail.recipient_name_view() == self.recipient_name_view(),
            mail.recipient_email_view() == self.recipient_email_view(),
            mail.subject_view() == subject@,
            mail.body_view() == self.body_view(),
    {
        let mut mail = self;
        mail.subject = subject.to_owned();
        mail
    }

    /// The email with the HTML body set to `body`.
    pub fn add_body(self, body: &str) -> (mail: Self)
        ensures
            mail.recipient_name_view() == self.recipient_name_view(),
            mail.recipient_email_view() == self.recipient_email_view(),
            mail.subject_view() == self.subject_view(),
            mail.body_view() == body@,
    {
        let mut mail = self;
        mail.body = body.to_owned();
        mail
    }

    /// The recipient's name.
    pub fn recipient_name(&self) -> (name: &str)
        ensures
            name@ == self.recipient_name_view(),
    {
        self.recipient_name.as_str()
    }

    /// The recipient's address.
    pub fn recipient_email(&self) -> (email: &str)
        ensures
            email@ == self.recipient_email_view(),
    {
        self.recipient_email.as_str()
    }

    /// The subject.
    pub fn subject(&self) -> (subject: &str)
        ensures
            subject@ == self.subject_view(),
    {
        self.subject.as_str()
    }

    /// The HTML body.
    pub fn body(&self) -> (body: &str)
        ensures
            body@ == self.body_view(),
    {
        self.body.as_str()
    }
}

impl Default for MailCreator {
    fn default() -> (mail: Self)
        ensures
            mail.recipient_name_view() == Seq::<char>::empty(),
            mail.recipient_email_view() == Seq::<char>::empty(),
            mail.subject_view() == Seq::<char>::empty(),
            mail.body_view() == Seq::<char>::empty(),
    {
        MailCreator::new()
    }
}

} // verus!
