//! Notifications: what is told to the outside once a change has been
//! made. They are queued here; sending them is left to whoever empties the
//! queue, and whether that works out changes nothing that was stored.

use crate::application::{Application, ApplicationView};
use crate::foreign::now;
use crate::text::views;
use chrono::NaiveDateTime;
use vstd::prelude::*;

verus! {

/// The body of a webhook
#[derive(Debug, PartialEq, Eq)]
pub struct Payload<T> {
    /// The type of webhook
    pub type_: String,
    /// The event the webhook applies to
    pub for_: String,
    /// The object the webhook applies to
    pub object: T,
    /// When the webhook was sent
    pub at: NaiveDateTime,
}

/// What a [`Payload`] holds, with each string as its characters and the
/// object as its view.
pub struct PayloadView<V> {
    pub type_: Seq<char>,
    pub for_: Seq<char>,
    pub object: V,
    pub at: NaiveDateTime,
}

impl<T: View> View for Payload<T> {
    type V = PayloadView<T::V>;

    open spec fn view(&self) -> PayloadView<T::V> {
        PayloadView { type_: self.type_@, for_: self.for_@, object: self.object@, at: self.at }
    }
}

/// An email made from a template
#[derive(Debug, PartialEq, Eq)]
pub struct Mail {
    /// The alias of the template
    pub template: String,
    /// The address to send it to
    pub to: String,
}

/// What a [`Mail`] holds, with each string as its characters.
pub struct MailView {
    pub template: Seq<char>,
    pub to: Seq<char>,
}

impl View for Mail {
    type V = MailView;

    open spec fn view(&self) -> MailView {
        MailView { template: self.template@, to: self.to@ }
    }
}

/// Something to tell the outside
#[derive(Debug, PartialEq, Eq)]
pub enum Notification {
    /// A webhook about an application
    Webhook(Payload<Application>),
    /// An email to a participant
    Mail(Mail),
}

/// What a [`Notification`] holds, as a view.
pub enum NotificationView {
    Webhook(PayloadView<ApplicationView>),
    Mail(MailView),
}

impl View for Notification {
    type V = NotificationView;

    open spec fn view(&self) -> NotificationView {
        match self {
            Notification::Webhook(payload) => NotificationView::Webhook(payload@),
            Notification::Mail(mail) => NotificationView::Mail(mail@),
        }
    }
}

/// The notifications that wait to be sent, the oldest first.
pub struct Outbox {
    pub pending: Vec<Notification>,
}

impl View for Outbox {
    type V = Seq<NotificationView>;

    open spec fn view(&self) -> Seq<NotificationView> {
        views(self.pending@)
    }
}

/// The webhook that tells of something that happened to an application.
pub open spec fn webhook(
    event_type: Seq<char>,
    event_slug: Seq<char>,
    object: ApplicationView,
    at: NaiveDateTime,
) -> NotificationView {
    NotificationView::Webhook(PayloadView { type_: event_type, for_: event_slug, object, at })
}

/// The email made from a template for an address.
pub open spec fn mail(template: Seq<char>, to: Seq<char>) -> NotificationView {
    NotificationView::Mail(MailView { template, to })
}

impl Outbox {
    /// An outbox in which nothing waits.
    pub fn new() -> (outbox: Self)
        ensures
            outbox@ == Seq::<NotificationView>::empty(),
    {
        let outbox = Outbox { pending: Vec::new() };
        assert(outbox@ =~= Seq::<NotificationView>::empty());
        outbox
    }

    /// Queues a notification behind those that wait.
    pub fn push(&mut self, notification: Notification)
        ensures
            final(self)@ == old(self)@.push(notification@),
    {
        self.pending.push(notification);
        assert(self@ =~= old(self)@.push(notification@));
    }

    /// Queues notifications behind those that wait, in their order.
    pub fn extend(&mut self, notifications: Vec<Notification>)
        ensures
            final(self)@ == old(self)@ + views(notifications@),
    {
        let mut notifications = notifications;
        let ghost added = notifications@;
        self.pending.append(&mut notifications);
        assert(self@ =~= old(self)@ + views(added));
    }

    /// Takes out everything that waits, the oldest first.
    pub fn drain(&mut self) -> (taken: Vec<Notification>)
        ensures
            views(taken@) == old(self)@,
            final(self)@ == Seq::<NotificationView>::empty(),
    {
        let mut taken: Vec<Notification> = Vec::new();
        core::mem::swap(&mut self.pending, &mut taken);
        assert(self@ =~= Seq::<NotificationView>::empty());
        taken
    }
}

/// Send a webhook event about an application, as of now
pub fn send(outbox: &mut Outbox, event_type: &str, event_slug: &str, object: &Application)
    ensures
        exists|at: NaiveDateTime|
            final(outbox)@ == old(outbox)@.push(webhook(event_type@, event_slug@, object@, at)),
{
    let at = now();
    send_at(outbox, event_type, event_slug, object, at);
}

/// Send a webhook event about an application, as of the given time
pub fn send_at(
    outbox: &mut Outbox,
    event_type: &str,
    event_slug: &str,
    object: &Application,
    at: NaiveDateTime,
)
    ensures
        final(outbox)@ == old(outbox)@.push(webhook(event_type@, event_slug@, object@, at)),
{
    outbox.push(
        Notification::Webhook(
            Payload {
                type_: event_type.to_owned(),
                for_: event_slug.to_owned(),
                object: object.clone(),
                at,
            },
        ),
    );
}

/// Send a templated email to the specified address
pub fn send_templated(outbox: &mut Outbox, id: &str, to: &str)
    ensures
        final(outbox)@ == old(outbox)@.push(mail(id@, to@)),
{
    outbox.push(Notification::Mail(Mail { template: id.to_owned(), to: to.to_owned() }));
}

} // verus!
