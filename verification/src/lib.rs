//! The data model of a client for a mail, calendar and contacts protocol.
//!
//! Every record type comes with a partial form, in which each field is given
//! or left out. A partial record serves as a patch to a record and as a
//! filtered view of it. Records, their parts and the arguments of the
//! protocol's methods are read from and written to JSON values; a method call
//! is the array of its name, its arguments and the id that the client gave it.
//!
//! What a conversion yields is stated in spec functions over the values that
//! the types stand for, and the executable code is proved against them.

pub mod calendar;
pub mod calendar_event;
pub mod contact;
pub mod contact_group;
pub mod json;
pub mod mailbox;
pub mod message;
pub mod message_copy;
pub mod message_import;
pub mod message_list;
pub mod message_report;
pub mod method;
pub mod parse;
pub mod record;
pub mod text;
pub mod types;

pub use self::calendar::Calendar;
pub use self::calendar_event::CalendarEvent;
pub use self::contact::Contact;
pub use self::contact_group::ContactGroup;
pub use self::mailbox::Mailbox;
pub use self::message::Message;
