//! From a command to the request that is submitted for it.

use vstd::prelude::*;
use vstd::string::*;

use crate::record_set::{all_rdata_valid, record_set_built, record_set_from, texts_of, RdataError};
use crate::rr::{
    dns_class_text, dns_class_to_string, name_text, name_to_string, record_set_class,
    record_set_name, record_set_ttl, record_set_type, record_type_text, record_type_to_string,
};
use trust_dns_client::rr::{DNSClass, Name, RecordSet, RecordType};

verus! {

/// Ask the nameserver for the records of a name and type.
#[derive(Debug)]
pub struct QueryOpt {
    pub name: Name,
    pub ty: RecordType,
}

/// Tell the nameserver that the records of a name and type have changed.
#[derive(Debug)]
pub struct NotifyOpt {
    pub name: Name,
    pub ty: RecordType,
    /// The new record data, one text each; may be empty.
    pub rdata: Vec<String>,
}

/// Create a record set in the zone.
#[derive(Debug)]
pub struct CreateOpt {
    pub name: Name,
    pub ty: RecordType,
    pub ttl: u32,
    pub rdata: Vec<String>,
}

/// Append record data to a record set of the zone.
#[derive(Debug)]
pub struct AppendOpt {
    /// Whether the server is to refuse the update unless the record set
    /// exists. The flag is passed on to the server and not judged here.
    pub must_exist: bool,
    pub name: Name,
    pub ty: RecordType,
    pub ttl: u32,
    pub rdata: Vec<String>,
}

/// Delete from the zone the records whose data equal the data given.
#[derive(Debug)]
pub struct DeleteRecordOpt {
    pub name: Name,
    pub ty: RecordType,
    pub rdata: Vec<String>,
}

/// The one operation of a run.
#[derive(Debug)]
pub enum Command {
    Query(QueryOpt),
    Notify(NotifyOpt),
    Create(CreateOpt),
    Append(AppendOpt),
    DeleteRecord(DeleteRecordOpt),
}

/// The call on the client handle that carries out a command, with the
/// arguments of that call.
#[derive(Debug)]
#[allow(inconsistent_fields)]
pub enum Request {
    /// Look up by name, class and type.
    Query { name: Name, class: DNSClass, ty: RecordType },
    /// Notify for name, class and type, with the record set if data came.
    Notify { name: Name, class: DNSClass, ty: RecordType, rdata: Option<RecordSet> },
    /// Create the record set within the zone.
    Create { rdata: RecordSet, zone: Name },
    /// Append to the record set within the zone.
    Append { rdata: RecordSet, zone: Name, must_exist: bool },
    /// Delete within the zone the records whose data are in the set.
    DeleteByRdata { rdata: RecordSet, zone: Name },
}

impl Request {
    /// The record set that the request carries, if it carries one.
    pub open spec fn record_set_of(self) -> Option<RecordSet> {
        match self {
            Request::Query { .. } => None,
            Request::Notify { rdata, .. } => rdata,
            Request::Create { rdata, .. } => Some(rdata),
            Request::Append { rdata, .. } => Some(rdata),
            Request::DeleteByRdata { rdata, .. } => Some(rdata),
        }
    }

    pub fn record_set(&self) -> (set: Option<&RecordSet>)
        ensures
            set is Some <==> self.record_set_of() is Some,
            set matches Some(s) ==> self.record_set_of() == Some(*s),
    {
        match self {
            Request::Query { .. } => None,
            Request::Notify { rdata, .. } => match rdata {
                Some(set) => Some(set),
                None => None,
            },
            Request::Create { rdata, .. } => Some(rdata),
            Request::Append { rdata, .. } => Some(rdata),
            Request::DeleteByRdata { rdata, .. } => Some(rdata),
        }
    }
}

/// Why no request is submitted for a command.
#[derive(Clone, Copy, Debug, PartialEq, Eq, Structural)]
pub enum RequestError {
    /// A dynamic update was asked for and no zone was supplied.
    MissingZone,
    /// A text of the record data did not become record data.
    Rdata(RdataError),
}

impl RequestError {
    /// What the user is told of the error.
    pub open spec fn message_text(self) -> Seq<char> {
        match self {
            RequestError::MissingZone => "zone is required for dynamic update operations"@,
            RequestError::Rdata(_) => "failed to parse rdata"@,
        }
    }

    pub fn message(self) -> (text: String)
        ensures
            text@ == self.message_text(),
    {
        match self {
            RequestError::MissingZone => String::from_str(
                "zone is required for dynamic update operations",
            ),
            RequestError::Rdata(_) => String::from_str("failed to parse rdata"),
        }
    }
}

/// A request ready to be submitted, and the line that announces it.
#[derive(Debug)]
pub struct Prepared {
    pub request: Request,
    pub summary: String,
}

/// The five kinds of command.
#[derive(Clone, Copy, Debug, PartialEq, Eq, Structural)]
pub enum CommandKind {
    Query,
    Notify,
    Create,
    Append,
    DeleteRecord,
}

/// A command as what it says: its kind, the name and record type it is
/// about, and what it says of the record set.
pub struct CommandView {
    pub kind: CommandKind,
    pub name: Name,
    pub ty: RecordType,
    /// The time to live of the command's record set. A notification and a
    /// deletion express no lifetime: theirs is 0, and so is a query's.
    pub ttl: u32,
    /// The flag of an append; `false` for the others.
    pub must_exist: bool,
    /// The texts of the command's record data; a query has none.
    pub rdata: Seq<Seq<char>>,
}

impl View for Command {
    type V = CommandView;

    open spec fn view(&self) -> CommandView {
        match *self {
            Command::Query(opt) => CommandView {
                kind: CommandKind::Query,
                name: opt.name,
                ty: opt.ty,
                ttl: 0,
                must_exist: false,
                rdata: Seq::empty(),
            },
            Command::Notify(opt) => CommandView {
                kind: CommandKind::Notify,
                name: opt.name,
                ty: opt.ty,
                ttl: 0,
                must_exist: false,
                rdata: texts_of(opt.rdata@),
            },
            Command::Create(opt) => CommandView {
                kind: CommandKind::Create,
                name: opt.name,
                ty: opt.ty,
                ttl: opt.ttl,
                must_exist: false,
                rdata: texts_of(opt.rdata@),
            },
            Command::Append(opt) => CommandView {
                kind: CommandKind::Append,
                name: opt.name,
                ty: opt.ty,
                ttl: opt.ttl,
                must_exist: opt.must_exist,
                rdata: texts_of(opt.rdata@),
            },
            Command::DeleteRecord(opt) => CommandView {
                kind: CommandKind::DeleteRecord,
                name: opt.name,
                ty: opt.ty,
                ttl: 0,
                must_exist: false,
                rdata: texts_of(opt.rdata@),
            },
        }
    }
}

impl CommandView {
    /// The command is a dynamic update, which is made within a zone.
    pub open spec fn is_update(self) -> bool {
        self.kind is Create || self.kind is Append || self.kind is DeleteRecord
    }

    /// The command carries a record set: every update does, a notification
    /// does if it has record data, a query does not.
    pub open spec fn has_record_set(self) -> bool {
        self.is_update() || (self.kind is Notify && self.rdata.len() > 0)
    }

    /// The record set of the command, built from its own name, type, time
    /// to live and texts, in the given class.
    pub open spec fn record_set(self, class: DNSClass) -> Result<RecordSet, RdataError> {
        record_set_built(self.name, class, self.ty, self.ttl, self.rdata)
    }
}

impl Command {
    pub fn needs_zone(&self) -> (b: bool)
        ensures
            b == self@.is_update(),
    {
        match self {
            Command::Query(_) | Command::Notify(_) => false,
            Command::Create(_) | Command::Append(_) | Command::DeleteRecord(_) => true,
        }
    }
}

/// The request for a command, or the reason why none is submitted.
///
/// A dynamic update without a zone is refused before its record data are
/// looked at. A notification without record data goes out without a record
/// set.
pub open spec fn request_for(class: DNSClass, zone: Option<Name>, command: CommandView) -> Result<
    Request,
    RequestError,
> {
    match command.kind {
        CommandKind::Query => Ok(Request::Query { name: command.name, class, ty: command.ty }),
        CommandKind::Notify => if command.rdata.len() == 0 {
            Ok(Request::Notify { name: command.name, class, ty: command.ty, rdata: None })
        } else {
            match command.record_set(class) {
                Ok(set) => Ok(
                    Request::Notify {
                        name: command.name,
                        class,
                        ty: command.ty,
                        rdata: Some(set),
                    },
                ),
                Err(e) => Err(RequestError::Rdata(e)),
            }
        },
        CommandKind::Create => match zone {
            None => Err(RequestError::MissingZone),
            Some(zone) => match command.record_set(class) {
                Ok(set) => Ok(Request::Create { rdata: set, zone }),
                Err(e) => Err(RequestError::Rdata(e)),
            },
        },
        CommandKind::Append => match zone {
            None => Err(RequestError::MissingZone),
            Some(zone) => match command.record_set(class) {
                Ok(set) => Ok(
                    Request::Append { rdata: set, zone, must_exist: command.must_exist },
                ),
                Err(e) => Err(RequestError::Rdata(e)),
            },
        },
        CommandKind::DeleteRecord => match zone {
            None => Err(RequestError::MissingZone),
            Some(zone) => match command.record_set(class) {
                Ok(set) => Ok(Request::DeleteByRdata { rdata: set, zone }),
                Err(e) => Err(RequestError::Rdata(e)),
            },
        },
    }
}

/// Name, class and type as they stand in every announcement.
pub open spec fn subject_text(name: Name, class: DNSClass, ty: RecordType) -> Seq<char> {
    name_text(name) + " "@ + dns_class_text(class) + " "@ + record_type_text(ty)
}

pub open spec fn bool_text(b: bool) -> Seq<char> {
    if b {
        "true"@
    } else {
        "false"@
    }
}

/// The line that announces the request for a command. Where the command is
/// an update, `zone` is the zone it is made in.
pub open spec fn summary_text(class: DNSClass, zone: Option<Name>, command: CommandView) -> Seq<
    char,
> {
    let subject = subject_text(command.name, class, command.ty);
    match command.kind {
        CommandKind::Query => "; sending query: "@ + subject,
        CommandKind::Notify => "; sending notify: "@ + subject,
        CommandKind::Create => "; sending create: "@ + subject + " in "@ + name_text(zone->0),
        CommandKind::Append => "; sending append: "@ + subject + " in "@ + name_text(zone->0)
            + " and must_exist("@ + bool_text(command.must_exist) + ")"@,
        CommandKind::DeleteRecord => "; sending delete-record: "@ + subject + " from "@
            + name_text(zone->0),
    }
}

/// A prepared request as the request and the characters of its
/// announcement.
pub struct PreparedView {
    pub request: Request,
    pub summary: Seq<char>,
}

impl View for Prepared {
    type V = PreparedView;

    open spec fn view(&self) -> PreparedView {
        PreparedView { request: self.request, summary: self.summary@ }
    }
}

/// What preparing a command comes to: the request with its announcement, or
/// the reason why none is submitted.
pub open spec fn prepared_for(class: DNSClass, zone: Option<Name>, command: CommandView) -> Result<
    PreparedView,
    RequestError,
> {
    match request_for(class, zone, command) {
        Ok(request) => Ok(PreparedView { request, summary: summary_text(class, zone, command) }),
        Err(e) => Err(e),
    }
}

/// The outcome of preparing as request and characters.
pub open spec fn prepared(r: Result<Prepared, RequestError>) -> Result<PreparedView, RequestError> {
    match r {
        Ok(p) => Ok(p@),
        Err(e) => Err(e),
    }
}

fn announcement(head: &str, name: &Name, class: DNSClass, ty: RecordType) -> (line: String)
    ensures
        line@ == head@ + subject_text(*name, class, ty),
{
    let mut line = String::from_str(head);
    line.append(name_to_string(name).as_str());
    line.append(" ");
    line.append(dns_class_to_string(class).as_str());
    line.append(" ");
    line.append(record_type_to_string(ty).as_str());
    proof {
        assert(line@ =~= head@ + subject_text(*name, class, ty));
    }
    line
}

fn with_zone(line: String, link: &str, zone: &Name) -> (longer: String)
    ensures
        longer@ == line@ + link@ + name_text(*zone),
{
    let mut longer = line;
    longer.append(link);
    longer.append(name_to_string(zone).as_str());
    longer
}

/// Turns a command into the request to submit and the line that announces
/// it. First the command's own conditions are checked, then its record set
/// is built; nothing is sent from here.
///
/// A create, an append and a delete need a zone: without one the answer is
/// `MissingZone`, whatever the record data. Record data of which one text is
/// not the textual form of the record type give the error of the first such
/// text. A notification without record data carries no record set. The
/// record set of a notification and of a deletion has the time to live 0.
pub fn prepare_request(class: DNSClass, zone: Option<Name>, command: Command) -> (r: Result<
    Prepared,
    RequestError,
>)
    ensures
        prepared(r) == prepared_for(class, zone, command@),
        r == Err::<Prepared, RequestError>(RequestError::MissingZone) <==> command@.is_update()
            && zone is None,
        r is Ok <==> (command@.is_update() ==> zone is Some) && (command@.has_record_set()
            ==> all_rdata_valid(command@.ty, command@.rdata)),
        r matches Ok(p) ==> (p.request.record_set_of() is Some <==> command@.has_record_set()),
        r matches Ok(p) ==> (p.request.record_set_of() matches Some(set) ==> {
            &&& record_set_name(set) == command@.name
            &&& record_set_type(set) == command@.ty
            &&& record_set_class(set) == class
            &&& record_set_ttl(set) == command@.ttl
        }),
{
    match command {
        Command::Query(opt) => {
            let summary = announcement("; sending query: ", &opt.name, class, opt.ty);
            Ok(Prepared { request: Request::Query { name: opt.name, class, ty: opt.ty }, summary })
        },
        Command::Notify(opt) => {
            let summary = announcement("; sending notify: ", &opt.name, class, opt.ty);
            let rdata = if opt.rdata.len() == 0 {
                None
            } else {
                match record_set_from(opt.name.clone(), class, opt.ty, 0, opt.rdata) {
                    Ok(set) => Some(set),
                    Err(e) => {
                        return Err(RequestError::Rdata(e));
                    },
                }
            };
            Ok(
                Prepared {
                    request: Request::Notify { name: opt.name, class, ty: opt.ty, rdata },
                    summary,
                },
            )
        },
        Command::Create(opt) => {
            let zone = match zone {
                Some(zone) => zone,
                None => {
                    return Err(RequestError::MissingZone);
                },
            };
            let line = announcement("; sending create: ", &opt.name, class, opt.ty);
            let summary = with_zone(line, " in ", &zone);
            let rdata = match record_set_from(opt.name, class, opt.ty, opt.ttl, opt.rdata) {
                Ok(set) => set,
                Err(e) => {
                    return Err(RequestError::Rdata(e));
                },
            };
            Ok(Prepared { request: Request::Create { rdata, zone }, summary })
        },
        Command::Append(opt) => {
            let zone = match zone {
                Some(zone) => zone,
                None => {
                    return Err(RequestError::MissingZone);
                },
            };
            let line = announcement("; sending append: ", &opt.name, class, opt.ty);
            let mut summary = with_zone(line, " in ", &zone);
            summary.append(" and must_exist(");
            summary.append(if opt.must_exist { "true" } else { "false" });
            summary.append(")");
            let rdata = match record_set_from(opt.name, class, opt.ty, opt.ttl, opt.rdata) {
                Ok(set) => set,
                Err(e) => {
                    return Err(RequestError::Rdata(e));
                },
            };
            Ok(
                Prepared {
                    request: Request::Append { rdata, zone, must_exist: opt.must_exist },
                    summary,
                },
            )
        },
        Command::DeleteRecord(opt) => {
            let zone = match zone {
                Some(zone) => zone,
                None => {
                    return Err(RequestError::MissingZone);
                },
            };
            let line = announcement("; sending delete-record: ", &opt.name, class, opt.ty);
            let summary = with_zone(line, " from ", &zone);
            let rdata = match record_set_from(opt.name, class, opt.ty, 0, opt.rdata) {
                Ok(set) => set,
                Err(e) => {
                    return Err(RequestError::Rdata(e));
                },
            };
            Ok(Prepared { request: Request::DeleteByRdata { rdata, zone }, summary })
        },
    }
}

/// What is shown of a response: a line that says one came, then the
/// message in its own textual form, whatever the command was.
pub open spec fn rendered_text(message: Seq<char>) -> Seq<char> {
    "; received response\n"@ + message
}

/// Renders a response from the textual form of its message.
pub fn render_response(message: &str) -> (shown: String)
    ensures
        shown@ == rendered_text(message@),
{
    let mut shown = String::from_str("; received response\n");
    shown.append(message);
    shown
}

} // verus!
