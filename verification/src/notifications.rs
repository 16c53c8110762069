use vstd::prelude::*;

verus! {

/// Type of notification to send.
#[derive(Debug, Clone, Copy, PartialEq, Eq, Structural)]
pub enum NotificationType {
    Email,
    SMS,
}

/// Task information for notifications.
pub struct NotificationTask {
    /// User ids to notify.
    pub recipients: Vec<String>,
    /// Notification content.
    pub payload: String,
    /// Type of notification.
    pub notification_type: NotificationType,
}

/// Mathematical value of a `NotificationTask`.
#[verifier::ext_equal]
pub struct NotificationTaskV {
    pub recipients: Seq<Seq<char>>,
    pub payload: Seq<char>,
    pub notification_type: NotificationType,
}

impl DeepView for NotificationTask {
    type V = NotificationTaskV;

    open spec fn deep_view(&self) -> NotificationTaskV {
        NotificationTaskV {
            recipients: self.recipients.deep_view(),
            payload: self.payload@,
            notification_type: self.notification_type,
        }
    }
}

/// The pending notification tasks, oldest first.
pub uninterp spec fn queue_items(q: &NotificationQueue) -> Seq<NotificationTaskV>;

/// The bound the queue was created with.
pub uninterp spec fn queue_capacity(q: &NotificationQueue) -> nat;

/// The bounded notification queue, owned by the process's composition root
/// and handed to producers and the background worker. Capacity is fixed at
/// construction; a push into a full queue is rejected, never blocked on.
///
/// The underlying queue mutates through shared references; this wrapper
/// exposes it through `&mut` only, so its stated contents are meaningful
/// for a single owner at a time.
#[verifier::external_body]
pub struct NotificationQueue {
    inner: deadqueue::limited::Queue<NotificationTask>,
}

impl NotificationQueue {
    /// Relies on deadqueue::limited::Queue::new: an empty queue bounded at
    /// `capacity`. (The underlying buffer refuses a zero capacity.)
    #[verifier::external_body]
    pub fn new(capacity: usize) -> (q: NotificationQueue)
        requires
            capacity > 0,
        ensures
            queue_items(&q) == Seq::<NotificationTaskV>::empty(),
            queue_capacity(&q) == capacity,
    {
        NotificationQueue { inner: deadqueue::limited::Queue::new(capacity) }
    }

    /// Relies on deadqueue::limited::Queue::try_push: appends the task when
    /// the queue has room, and hands it back when the queue is full.
    #[verifier::external_body]
    pub fn try_push(&mut self, task: NotificationTask) -> (r: Result<(), NotificationTask>)
        ensures
            queue_capacity(final(self)) == queue_capacity(old(self)),
            queue_items(old(self)).len() < queue_capacity(old(self)) ==> r is Ok && queue_items(
                final(self),
            ) == queue_items(old(self)).push(task.deep_view()),
            queue_items(old(self)).len() >= queue_capacity(old(self)) ==> (r matches Err(t) && t
                == task) && queue_items(final(self)) == queue_items(old(self)),
    {
        self.inner.try_push(task)
    }

    /// Relies on deadqueue::limited::Queue::try_pop: removes and returns
    /// the oldest task, or nothing when the queue is empty.
    #[verifier::external_body]
    pub fn try_pop(&mut self) -> (r: Option<NotificationTask>)
        ensures
            queue_capacity(final(self)) == queue_capacity(old(self)),
            queue_items(old(self)).len() == 0 ==> r is None && queue_items(final(self))
                == queue_items(old(self)),
            queue_items(old(self)).len() > 0 ==> (r matches Some(t) && t.deep_view()
                == queue_items(old(self))[0]) && queue_items(final(self)) == queue_items(
                old(self),
            ).drop_first(),
    {
        self.inner.try_pop()
    }

    /// Relies on deadqueue::limited::Queue::len: how many tasks are queued.
    #[verifier::external_body]
    pub fn len(&self) -> (n: usize)
        ensures
            n == queue_items(self).len(),
    {
        self.inner.len()
    }

    /// Relies on deadqueue::limited::Queue::capacity: the fixed bound.
    #[verifier::external_body]
    pub fn capacity(&self) -> (n: usize)
        ensures
            n == queue_capacity(self),
    {
        self.inner.capacity()
    }
}

/// Queue a new notification task. A task without recipients is discarded;
/// a full queue rejects the task, and the rejection is deliberately
/// swallowed: notification delivery is best effort.
pub fn queue(
    q: &mut NotificationQueue,
    recipients: Vec<String>,
    payload: String,
    notification_type: NotificationType,
)
    ensures
        queue_capacity(final(q)) == queue_capacity(old(q)),
        recipients@.len() == 0 ==> queue_items(final(q)) == queue_items(old(q)),
        recipients@.len() > 0 && queue_items(old(q)).len() < queue_capacity(old(q))
            ==> queue_items(final(q)) == queue_items(old(q)).push(
            NotificationTaskV {
                recipients: recipients.deep_view(),
                payload: payload@,
                notification_type,
            },
        ),
        recipients@.len() > 0 && queue_items(old(q)).len() >= queue_capacity(old(q))
            ==> queue_items(final(q)) == queue_items(old(q)),
{
    if recipients.len() == 0 {
        return ;
    }
    let task = NotificationTask { recipients, payload, notification_type };
    match q.try_push(task) {
        Ok(()) => {},
        Err(_) => {},
    }
}

/// A recipient's contact details, as user settings record them.
pub struct Contact {
    pub user_id: String,
    pub email: Option<String>,
    pub phone: Option<String>,
}

/// Mathematical value of a `Contact`.
#[verifier::ext_equal]
pub struct ContactV {
    pub user_id: Seq<char>,
    pub email: Option<Seq<char>>,
    pub phone: Option<Seq<char>>,
}

impl DeepView for Contact {
    type V = ContactV;

    open spec fn deep_view(&self) -> ContactV {
        ContactV {
            user_id: self.user_id@,
            email: self.email.deep_view(),
            phone: self.phone.deep_view(),
        }
    }
}

/// One delivery the worker decides to make.
pub enum SendAction {
    Email { to: String, payload: String },
    Sms { to: String, payload: String },
}

/// Mathematical value of a `SendAction`.
#[verifier::ext_equal]
pub enum SendActionV {
    Email { to: Seq<char>, payload: Seq<char> },
    Sms { to: Seq<char>, payload: Seq<char> },
}

impl DeepView for SendAction {
    type V = SendActionV;

    open spec fn deep_view(&self) -> SendActionV {
        match self {
            SendAction::Email { to, payload } => SendActionV::Email { to: to@, payload: payload@ },
            SendAction::Sms { to, payload } => SendActionV::Sms { to: to@, payload: payload@ },
        }
    }
}

/// The deliveries one task gives rise to: for an email task, one email per
/// contact with a known address; for a text-message task, one text per
/// contact with a known phone number.
pub open spec fn worker_actions(task: NotificationTaskV, contacts: Seq<ContactV>) -> Seq<
    SendActionV,
>
    decreases contacts.len(),
{
    if contacts.len() == 0 {
        Seq::empty()
    } else {
        let rest = worker_actions(task, contacts.drop_first());
        match task.notification_type {
            NotificationType::Email => match contacts[0].email {
                Some(address) => seq![
                    SendActionV::Email { to: address, payload: task.payload },
                ] + rest,
                None => rest,
            },
            NotificationType::SMS => match contacts[0].phone {
                Some(number) => seq![SendActionV::Sms { to: number, payload: task.payload }] + rest,
                None => rest,
            },
        }
    }
}

/// Decide the deliveries for one dequeued task, given the contact details
/// resolved for its recipients. The surrounding worker loop performs the
/// deliveries; a failed delivery affects no other.
pub fn worker_step(task: &NotificationTask, contacts: &Vec<Contact>) -> (r: Vec<SendAction>)
    ensures
        r.deep_view() == worker_actions(task.deep_view(), contacts.deep_view()),
{
    let ghost tv = task.deep_view();
    let ghost cv = contacts.deep_view();
    proof {
        assert(cv.skip(0) =~= cv);
    }
    let mut out: Vec<SendAction> = Vec::new();
    let mut i: usize = 0;
    while i < contacts.len()
        invariant
            i <= contacts.len(),
            tv == task.deep_view(),
            cv == contacts.deep_view(),
            worker_actions(tv, cv) == out.deep_view() + worker_actions(tv, cv.skip(i as int)),
        decreases contacts.len() - i,
    {
        proof {
            assert(cv[i as int] == contacts@[i as int].deep_view());
            assert(cv.skip(i as int)[0] == cv[i as int]);
            assert(cv.skip(i as int).drop_first() =~= cv.skip(i as int + 1));
        }
        let action: Option<SendAction> = match task.notification_type {
            NotificationType::Email => match &contacts[i].email {
                Some(address) => Some(
                    SendAction::Email { to: address.clone(), payload: task.payload.clone() },
                ),
                None => None,
            },
            NotificationType::SMS => match &contacts[i].phone {
                Some(number) => Some(
                    SendAction::Sms { to: number.clone(), payload: task.payload.clone() },
                ),
                None => None,
            },
        };
        match action {
            Some(a) => {
                let ghost before = out.deep_view();
                let ghost adv = a.deep_view();
                out.push(a);
                proof {
                    assert(out.deep_view() =~= before.push(adv));
                    assert((before + (seq![adv] + worker_actions(tv, cv.skip(i as int + 1))))
                        =~= (before.push(adv) + worker_actions(tv, cv.skip(i as int + 1))));
                }
            },
            None => {},
        }
        i = i + 1;
    }
    proof {
        assert(cv.skip(i as int) =~= Seq::<ContactV>::empty());
        assert(out.deep_view() + Seq::<SendActionV>::empty() =~= out.deep_view());
    }
    out
}

} // verus!
