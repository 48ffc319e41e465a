//! Baseline scanner: discovers live ports and services on the target.
//!
//! The external discovery tool writes a tag-structured document; its marker
//! stream (see [`crate::tags`]) is folded into an ordered inventory of
//! [`NmapScanResult`] records. One in-progress record is kept: `port` start
//! markers set the port number, `state` markers classify it, `service`
//! markers build the service description, and a `port` end marker completes
//! the record and starts a fresh one. A malformed marker is counted and
//! skipped; it never aborts the inventory.

use vstd::prelude::*;

use xml::reader::{EventReader, XmlEvent};

use crate::scan::Scan;
use crate::tags::{count_malformed, Attr, AttrModel, TagEvent, TagEventModel};

verus! {

/// The state of one discovered port.
///
/// `Unknown` is the zero value a record starts from; the baseline tool omits
/// closed ports entirely, so a parsed record is `Open` or `Filtered` as soon
/// as a state marker was seen. A record must never reach the dispatcher
/// while still `Unknown`.
#[derive(Clone, Copy, PartialEq, Eq, Structural, Debug)]
pub enum PortState {
    Open,
    Filtered,
    Unknown,
}

impl PortState {
    /// The human-readable word for this state, for the report table.
    pub fn label(&self) -> (s: String)
        ensures
            *self is Open ==> s@ == "Open"@,
            *self is Filtered ==> s@ == "Filtered"@,
            *self is Unknown ==> s@ == "Unknown"@,
    {
        match self {
            PortState::Open => "Open".to_owned(),
            PortState::Filtered => "Filtered".to_owned(),
            PortState::Unknown => "Unknown".to_owned(),
        }
    }
}

/// One discovered port: its string-encoded number and its state.
pub struct Port {
    pub num: String,
    pub state: PortState,
}

/// The mathematical value of a [`Port`].
pub struct PortModel {
    pub num: Seq<char>,
    pub state: PortState,
}

impl View for Port {
    type V = PortModel;

    open spec fn view(&self) -> PortModel {
        PortModel { num: self.num@, state: self.state }
    }
}

impl DeepView for Port {
    type V = PortModel;

    open spec fn deep_view(&self) -> PortModel {
        self@
    }
}

/// One record of the baseline inventory: a port and what service was seen on
/// it. The service fields stay empty for an unidentified service.
pub struct NmapScanResult {
    pub port: Port,
    pub service_name: String,
    pub service_version: String,
}

/// The mathematical value of an [`NmapScanResult`].
pub struct RecordModel {
    pub port: PortModel,
    pub service_name: Seq<char>,
    pub service_version: Seq<char>,
}

impl View for NmapScanResult {
    type V = RecordModel;

    open spec fn view(&self) -> RecordModel {
        RecordModel {
            port: self.port@,
            service_name: self.service_name@,
            service_version: self.service_version@,
        }
    }
}

impl DeepView for NmapScanResult {
    type V = RecordModel;

    open spec fn deep_view(&self) -> RecordModel {
        self@
    }
}

/// The zero-valued record the fold starts from and returns to after each
/// completed port.
pub open spec fn zero_record() -> RecordModel {
    RecordModel {
        port: PortModel { num: Seq::<char>::empty(), state: PortState::Unknown },
        service_name: Seq::<char>::empty(),
        service_version: Seq::<char>::empty(),
    }
}

/// A `portid` attribute of a `port` start marker overwrites the port
/// number in place: a duplicate marker does not append, the last value
/// wins.
pub open spec fn apply_port_attr(r: RecordModel, a: AttrModel) -> RecordModel {
    if a.name == "portid"@ {
        RecordModel { port: PortModel { num: a.value, ..r.port }, ..r }
    } else {
        r
    }
}

pub open spec fn apply_port_attrs(r: RecordModel, attrs: Seq<AttrModel>) -> RecordModel
    decreases attrs.len(),
{
    if attrs.len() == 0 {
        r
    } else {
        apply_port_attr(apply_port_attrs(r, attrs.drop_last()), attrs.last())
    }
}

/// A `state` attribute of a `state` start marker classifies the port: `Open`
/// for the literal `open`, else `Filtered` (the tool omits closed ports, so
/// there is no explicit closed representation).
pub open spec fn apply_state_attr(r: RecordModel, a: AttrModel) -> RecordModel {
    if a.name == "state"@ {
        RecordModel {
            port: PortModel {
                state: if a.value == "open"@ {
                    PortState::Open
                } else {
                    PortState::Filtered
                },
                ..r.port
            },
            ..r
        }
    } else {
        r
    }
}

pub open spec fn apply_state_attrs(r: RecordModel, attrs: Seq<AttrModel>) -> RecordModel
    decreases attrs.len(),
{
    if attrs.len() == 0 {
        r
    } else {
        apply_state_attr(apply_state_attrs(r, attrs.drop_last()), attrs.last())
    }
}

/// A `service` start marker builds the service description incrementally:
/// `name` appends to the service name; `product` appends too, preceded by a
/// `": "` separator when some name text is already present; `version`
/// appends to the version field verbatim.
pub open spec fn apply_service_attr(r: RecordModel, a: AttrModel) -> RecordModel {
    if a.name == "name"@ {
        RecordModel { service_name: r.service_name + a.value, ..r }
    } else if a.name == "product"@ {
        RecordModel {
            service_name: if r.service_name.len() != 0 {
                r.service_name + ": "@ + a.value
            } else {
                r.service_name + a.value
            },
            ..r
        }
    } else if a.name == "version"@ {
        RecordModel { service_version: r.service_version + a.value, ..r }
    } else {
        r
    }
}

pub open spec fn apply_service_attrs(r: RecordModel, attrs: Seq<AttrModel>) -> RecordModel
    decreases attrs.len(),
{
    if attrs.len() == 0 {
        r
    } else {
        apply_service_attr(apply_service_attrs(r, attrs.drop_last()), attrs.last())
    }
}

/// What one start marker does to the in-progress record.
pub open spec fn apply_start(r: RecordModel, name: Seq<char>, attrs: Seq<AttrModel>) -> RecordModel {
    if name == "port"@ {
        apply_port_attrs(r, attrs)
    } else if name == "state"@ {
        apply_state_attrs(r, attrs)
    } else if name == "service"@ {
        apply_service_attrs(r, attrs)
    } else {
        r
    }
}

/// What one marker does to the fold state: the in-progress record and the
/// records completed so far. A `port` end marker completes the in-progress
/// record, in first-seen order; malformed and foreign markers change nothing.
pub open spec fn fold_step(
    st: (RecordModel, Seq<RecordModel>),
    ev: TagEventModel,
) -> (RecordModel, Seq<RecordModel>) {
    match ev {
        TagEventModel::Start { name, attrs } => (apply_start(st.0, name, attrs), st.1),
        TagEventModel::End { name } => if name == "port"@ {
            (zero_record(), st.1.push(st.0))
        } else {
            st
        },
        TagEventModel::Malformed => st,
        TagEventModel::Other => st,
    }
}

/// The fold over a whole marker stream, from the zero-valued record.
pub open spec fn fold_events(events: Seq<TagEventModel>) -> (RecordModel, Seq<RecordModel>)
    decreases events.len(),
{
    if events.len() == 0 {
        (zero_record(), Seq::<RecordModel>::empty())
    } else {
        fold_step(fold_events(events.drop_last()), events.last())
    }
}

/// The inventory a marker stream parses to: the completed records, in the
/// order their `port` end markers were seen.
pub open spec fn inventory_of(events: Seq<TagEventModel>) -> Seq<RecordModel> {
    fold_events(events).1
}

/// Whether this marker is the end of a `port` element, which completes the
/// in-progress record.
pub open spec fn is_port_end(ev: TagEventModel) -> bool {
    ev matches TagEventModel::End { name } && name == "port"@
}

/// How many records a stream completes: one per `port` end marker.
pub open spec fn count_port_ends(events: Seq<TagEventModel>) -> nat
    decreases events.len(),
{
    if events.len() == 0 {
        0
    } else {
        count_port_ends(events.drop_last()) + if is_port_end(events.last()) {
            1nat
        } else {
            0nat
        }
    }
}

/// Whether some attribute of the list carries the given name.
pub open spec fn has_attr(attrs: Seq<AttrModel>, name: Seq<char>) -> bool {
    exists|i: int| 0 <= i < attrs.len() && attrs[i].name == name
}

/// Whether this marker classifies the in-progress port: a `state` start
/// marker that carries a `state` attribute.
pub open spec fn is_state_setter(ev: TagEventModel) -> bool {
    ev matches TagEventModel::Start { name, attrs } && name == "state"@ && has_attr(
        attrs,
        "state"@,
    )
}

/// What one marker other than a `port` end does to the in-progress record.
pub open spec fn apply_ev(r: RecordModel, ev: TagEventModel) -> RecordModel {
    match ev {
        TagEventModel::Start { name, attrs } => apply_start(r, name, attrs),
        _ => r,
    }
}

/// A segment applied to a record: the markers of one port's span, in order.
pub open spec fn apply_seg(r: RecordModel, seg: Seq<TagEventModel>) -> RecordModel
    decreases seg.len(),
{
    if seg.len() == 0 {
        r
    } else {
        apply_ev(apply_seg(r, seg.drop_last()), seg.last())
    }
}

/// Splits a stream at its `port` end markers: the markers of the still-open
/// span, and one segment per completed record (each segment excludes the
/// `port` end marker that closed it).
pub open spec fn seg_fold(events: Seq<TagEventModel>) -> (Seq<TagEventModel>, Seq<
    Seq<TagEventModel>,
>)
    decreases events.len(),
{
    if events.len() == 0 {
        (Seq::<TagEventModel>::empty(), Seq::<Seq<TagEventModel>>::empty())
    } else {
        let st = seg_fold(events.drop_last());
        let ev = events.last();
        if is_port_end(ev) {
            (Seq::<TagEventModel>::empty(), st.1.push(st.0))
        } else {
            (st.0.push(ev), st.1)
        }
    }
}

/// The spans of the completed records, in first-seen order.
pub open spec fn segments_of(events: Seq<TagEventModel>) -> Seq<Seq<TagEventModel>> {
    seg_fold(events).1
}

/// A fresh zero-valued record: empty port number, `Unknown` state, empty
/// service fields.
fn fresh_record() -> (r: NmapScanResult)
    ensures
        r@ == zero_record(),
{
    NmapScanResult {
        port: Port { num: String::new(), state: PortState::Unknown },
        service_name: String::new(),
        service_version: String::new(),
    }
}

/// Applies every attribute of a `port` start marker to the record.
fn apply_port_marker(cur: &mut NmapScanResult, attrs: &Vec<Attr>)
    ensures
        final(cur)@ == apply_port_attrs(old(cur)@, attrs.deep_view()),
{
    let portid_lit = "portid".to_owned();
    let ghost r0 = cur@;
    let mut j: usize = 0;
    while j < attrs.len()
        invariant
            j <= attrs.len(),
            portid_lit@ == "portid"@,
            cur@ == apply_port_attrs(r0, attrs.deep_view().take(j as int)),
        decreases attrs.len() - j,
    {
        assert(attrs.deep_view().take(j + 1).drop_last() =~= attrs.deep_view().take(j as int));
        if attrs[j].name == portid_lit {
            cur.port.num = attrs[j].value.clone();
        }
        j += 1;
    }
    assert(attrs.deep_view().take(attrs.len() as int) =~= attrs.deep_view());
}

/// Applies every attribute of a `state` start marker to the record.
fn apply_state_marker(cur: &mut NmapScanResult, attrs: &Vec<Attr>)
    ensures
        final(cur)@ == apply_state_attrs(old(cur)@, attrs.deep_view()),
{
    let state_lit = "state".to_owned();
    let open_lit = "open".to_owned();
    let ghost r0 = cur@;
    let mut j: usize = 0;
    while j < attrs.len()
        invariant
            j <= attrs.len(),
            state_lit@ == "state"@,
            open_lit@ == "open"@,
            cur@ == apply_state_attrs(r0, attrs.deep_view().take(j as int)),
        decreases attrs.len() - j,
    {
        assert(attrs.deep_view().take(j + 1).drop_last() =~= attrs.deep_view().take(j as int));
        if attrs[j].name == state_lit {
            if attrs[j].value == open_lit {
                cur.port.state = PortState::Open;
            } else {
                cur.port.state = PortState::Filtered;
            }
        }
        j += 1;
    }
    assert(attrs.deep_view().take(attrs.len() as int) =~= attrs.deep_view());
}

/// Applies every attribute of a `service` start marker to the record.
fn apply_service_marker(cur: &mut NmapScanResult, attrs: &Vec<Attr>)
    ensures
        final(cur)@ == apply_service_attrs(old(cur)@, attrs.deep_view()),
{
    let name_lit = "name".to_owned();
    let product_lit = "product".to_owned();
    let version_lit = "version".to_owned();
    let ghost r0 = cur@;
    let mut j: usize = 0;
    while j < attrs.len()
        invariant
            j <= attrs.len(),
            name_lit@ == "name"@,
            product_lit@ == "product"@,
            version_lit@ == "version"@,
            cur@ == apply_service_attrs(r0, attrs.deep_view().take(j as int)),
        decreases attrs.len() - j,
    {
        assert(attrs.deep_view().take(j + 1).drop_last() =~= attrs.deep_view().take(j as int));
        if attrs[j].name == name_lit {
            cur.service_name.append(attrs[j].value.as_str());
        } else if attrs[j].name == product_lit {
            if !cur.service_name.as_str().is_empty() {
                cur.service_name.append(": ");
            }
            cur.service_name.append(attrs[j].value.as_str());
        } else if attrs[j].name == version_lit {
            cur.service_version.append(attrs[j].value.as_str());
        }
        j += 1;
    }
    assert(attrs.deep_view().take(attrs.len() as int) =~= attrs.deep_view());
}

/// Folds a marker stream into the ordered inventory.
///
/// Returns the completed records and how many malformed markers were skipped;
/// a malformed marker never aborts the fold.
pub fn parse_inventory(events: &Vec<TagEvent>) -> (r: (Vec<NmapScanResult>, usize))
    ensures
        r.0.deep_view() == inventory_of(events.deep_view()),
        r.1 == count_malformed(events.deep_view()),
{
    let port_lit = "port".to_owned();
    let state_lit = "state".to_owned();
    let service_lit = "service".to_owned();
    let mut out: Vec<NmapScanResult> = Vec::new();
    let mut cur = fresh_record();
    let mut diag: usize = 0;
    let mut i: usize = 0;
    while i < events.len()
        invariant
            i <= events.len(),
            port_lit@ == "port"@,
            state_lit@ == "state"@,
            service_lit@ == "service"@,
            cur@ == fold_events(events.deep_view().take(i as int)).0,
            out.deep_view() == fold_events(events.deep_view().take(i as int)).1,
            diag == count_malformed(events.deep_view().take(i as int)),
            diag <= i,
        decreases events.len() - i,
    {
        assert(events.deep_view().take(i + 1).drop_last() =~= events.deep_view().take(i as int));
        assert(events.deep_view().take(i + 1).last() == events.deep_view()[i as int]);
        match &events[i] {
            TagEvent::Start { name, attrs } => {
                if *name == port_lit {
                    apply_port_marker(&mut cur, attrs);
                } else if *name == state_lit {
                    apply_state_marker(&mut cur, attrs);
                } else if *name == service_lit {
                    apply_service_marker(&mut cur, attrs);
                }
            },
            TagEvent::End { name } => {
                if *name == port_lit {
                    out.push(cur);
                    cur = fresh_record();
                }
            },
            TagEvent::Malformed => {
                diag += 1;
            },
            TagEvent::Other => {},
        }
        i += 1;
    }
    assert(events.deep_view().take(events.len() as int) =~= events.deep_view());
    (out, diag)
}

/// The marker stream the tokenizer reads out of a document's bytes: a pure
/// function of the bytes alone, named so that contracts can speak of it.
pub uninterp spec fn xml_events_of(input: Seq<u8>) -> Seq<TagEventModel>;

/// Relies on `xml::reader::EventReader` (with `Events::next`): it tokenizes a
/// tag-structured document into start and end markers with their attributes,
/// depending on the bytes alone. An entry it cannot read comes back as one
/// `Malformed` marker; every other kind of entry comes back as `Other`.
#[verifier::external_body]
fn xml_events(input: &[u8]) -> (events: Vec<TagEvent>)
    ensures
        events.deep_view() == xml_events_of(input@),
{
    let mut out: Vec<TagEvent> = Vec::new();
    for ev in EventReader::new(input) {
        out.push(match ev {
            Ok(XmlEvent::StartElement { name, attributes, .. }) => TagEvent::Start {
                name: name.local_name,
                attrs: attributes.into_iter().map(|a| Attr { name: a.name.local_name, value: a.value }).collect(),
            },
            Ok(XmlEvent::EndElement { name }) => TagEvent::End { name: name.local_name },
            Ok(_) => TagEvent::Other,
            Err(_) => TagEvent::Malformed,
        });
    }
    out
}

/// The baseline scanner: the external discovery tool, its deterministic
/// argument list, and where its structured output lands.
///
/// The service-version probe (`-sV`) and the default script set (`-sC`) are
/// always enabled; there is no configuration surface. The caller spawns the
/// tool with [`Self::scan_args`] and reads [`Self::output_file`] back.
pub struct NmapScan {
    /// The file the tool is told to write its structured output to.
    pub output_file: String,
    /// The fully-materialized argument list for the tool.
    pub scan_args: Vec<String>,
}

impl NmapScan {
    /// Builds the invocation from the output directory and the target alone:
    /// structured output to `<dir>/nmap_xml`, raw output to `<dir>/nmap_raw`,
    /// probes and scripts always on.
    pub fn new(output_dir: String, target: String) -> (r: NmapScan)
        ensures
            r.output_file@ == output_dir@ + "/nmap_xml"@,
            r.scan_args.deep_view() =~= seq![
                "-sV"@,
                "-sC"@,
                "-oX"@,
                output_dir@ + "/nmap_xml"@,
                "-oN"@,
                output_dir@ + "/nmap_raw"@,
                target@,
            ],
    {
        let mut xml_path = output_dir.clone();
        xml_path.append("/nmap_xml");
        let mut raw_path = output_dir.clone();
        raw_path.append("/nmap_raw");
        let scan_args = vec![
            "-sV".to_owned(),
            "-sC".to_owned(),
            "-oX".to_owned(),
            xml_path.clone(),
            "-oN".to_owned(),
            raw_path,
            target,
        ];
        NmapScan { output_file: xml_path, scan_args }
    }

}

impl Scan for NmapScan {
    type ScanResult = NmapScanResult;

    open spec fn spec_name(&self) -> Seq<char> {
        "nmap"@
    }

    open spec fn spec_args(&self) -> Seq<Seq<char>> {
        self.scan_args.deep_view()
    }

    open spec fn parse_ens(
        &self,
        output: Option<Seq<u8>>,
        records: Seq<NmapScanResult>,
        diagnostics: nat,
    ) -> bool {
        match output {
            Option::None => records == Seq::<NmapScanResult>::empty() && diagnostics == 1,
            Option::Some(b) => records.map_values(|x: NmapScanResult| x@) == inventory_of(
                xml_events_of(b),
            ) && diagnostics == count_malformed(xml_events_of(b)),
        }
    }

    fn scanner_name(&self) -> (r: String) {
        "nmap".to_owned()
    }

    fn command_args(&self) -> (r: &Vec<String>) {
        &self.scan_args
    }

    /// Decodes the tool's structured output into the inventory.
    ///
    /// `None` stands for an output file that could not be read at all: that
    /// is an empty inventory plus one diagnostic, not a runtime failure (the
    /// tool itself already exited). Otherwise the bytes are tokenized into
    /// markers and folded; the second component counts the malformed markers
    /// that were skipped.
    fn parse_output(&self, output: Option<&Vec<u8>>) -> (r: (Vec<NmapScanResult>, usize)) {
        match output {
            None => (Vec::new(), 1),
            Some(bytes) => {
                let events = xml_events(bytes.as_slice());
                let r = parse_inventory(&events);
                proof {
                    assert(r.0@.map_values(|x: NmapScanResult| x@) =~= r.0.deep_view());
                }
                r
            },
        }
    }
}

/// `port` start markers never touch the port state.
proof fn lemma_port_attrs_keep_state(r: RecordModel, attrs: Seq<AttrModel>)
    ensures
        apply_port_attrs(r, attrs).port.state == r.port.state,
    decreases attrs.len(),
{
    if attrs.len() > 0 {
        lemma_port_attrs_keep_state(r, attrs.drop_last());
    }
}

/// `service` start markers never touch the port state.
proof fn lemma_service_attrs_keep_state(r: RecordModel, attrs: Seq<AttrModel>)
    ensures
        apply_service_attrs(r, attrs).port.state == r.port.state,
    decreases attrs.len(),
{
    if attrs.len() > 0 {
        lemma_service_attrs_keep_state(r, attrs.drop_last());
    }
}

/// A `state` marker with a `state` attribute always classifies the port as
/// `Open` or `Filtered`; without one it leaves the state alone.
proof fn lemma_state_attrs_classify(r: RecordModel, attrs: Seq<AttrModel>)
    ensures
        has_attr(attrs, "state"@) ==> apply_state_attrs(r, attrs).port.state
            != PortState::Unknown,
        !has_attr(attrs, "state"@) ==> apply_state_attrs(r, attrs).port.state == r.port.state,
    decreases attrs.len(),
{
    if attrs.len() > 0 {
        lemma_state_attrs_classify(r, attrs.drop_last());
        if attrs.last().name == "state"@ {
        } else {
            assert forall|i: int| 0 <= i < attrs.len() && attrs[i].name == "state"@ implies 0 <= i
                < attrs.drop_last().len() && attrs.drop_last()[i].name == "state"@ by {
                assert(i != attrs.len() - 1);
            }
            if has_attr(attrs.drop_last(), "state"@) {
                let i = choose|i: int|
                    0 <= i < attrs.drop_last().len() && attrs.drop_last()[i].name == "state"@;
                assert(attrs[i].name == "state"@);
            }
        }
    }
}

/// One marker classifies the in-progress port exactly when it is a state
/// setter; every other marker leaves the state as it was.
proof fn lemma_apply_ev_state(r: RecordModel, ev: TagEventModel)
    ensures
        is_state_setter(ev) ==> apply_ev(r, ev).port.state != PortState::Unknown,
        !is_state_setter(ev) ==> apply_ev(r, ev).port.state == r.port.state,
{
    reveal_strlit("port");
    reveal_strlit("state");
    reveal_strlit("service");
    assert("port"@.len() == 4 && "state"@.len() == 5 && "service"@.len() == 7);
    assert("state"@ != "port"@ && "state"@ != "service"@);
    match ev {
        TagEventModel::Start { name, attrs } => {
            if name == "port"@ {
                lemma_port_attrs_keep_state(r, attrs);
            } else if name == "state"@ {
                lemma_state_attrs_classify(r, attrs);
                assert(is_state_setter(ev) ==> has_attr(attrs, "state"@));
            } else if name == "service"@ {
                lemma_service_attrs_keep_state(r, attrs);
            }
        },
        _ => {},
    }
}

/// Once some marker of a span classified the port, the record completed from
/// that span is never `Unknown`.
proof fn lemma_segment_state(r: RecordModel, seg: Seq<TagEventModel>)
    ensures
        (exists|i: int| 0 <= i < seg.len() && is_state_setter(seg[i])) ==> apply_seg(
            r,
            seg,
        ).port.state != PortState::Unknown,
    decreases seg.len(),
{
    if seg.len() > 0 {
        lemma_segment_state(r, seg.drop_last());
        lemma_apply_ev_state(apply_seg(r, seg.drop_last()), seg.last());
        if exists|i: int| 0 <= i < seg.len() && is_state_setter(seg[i]) {
            let i = choose|i: int| 0 <= i < seg.len() && is_state_setter(seg[i]);
            if i < seg.len() - 1 {
                assert(seg.drop_last()[i] == seg[i]);
            }
        }
    }
}

/// The fold over a stream is the fold over its segments: the in-progress
/// record is the still-open span applied to a fresh record, and completed
/// record `i` is segment `i` applied to a fresh record, in first-seen order.
/// The number of segments is the number of `port` end markers.
pub proof fn lemma_fold_by_segments(events: Seq<TagEventModel>)
    ensures
        fold_events(events).0 == apply_seg(zero_record(), seg_fold(events).0),
        fold_events(events).1.len() == segments_of(events).len(),
        segments_of(events).len() == count_port_ends(events),
        forall|i: int| 0 <= i < segments_of(events).len() ==> fold_events(events).1[i]
            == apply_seg(zero_record(), segments_of(events)[i]),
    decreases events.len(),
{
    if events.len() > 0 {
        lemma_fold_by_segments(events.drop_last());
        let prev = events.drop_last();
        let ev = events.last();
        if is_port_end(ev) {
        } else {
            assert(seg_fold(prev).0.push(ev).drop_last() =~= seg_fold(prev).0);
        }
    }
}

/// The shape of every parsed inventory: a stream with `N` `port` end markers
/// yields exactly `N` records; record `i` is built from the markers of span
/// `i` alone, so first-seen order is preserved; and whenever a span carried a
/// state marker with a `state` attribute, the completed record's state is
/// `Open` or `Filtered`, never `Unknown`.
pub proof fn lemma_inventory_shape(events: Seq<TagEventModel>)
    ensures
        inventory_of(events).len() == count_port_ends(events),
        forall|i: int| 0 <= i < inventory_of(events).len() ==> inventory_of(events)[i]
            == apply_seg(zero_record(), segments_of(events)[i]),
        forall|i: int|
            0 <= i < inventory_of(events).len() && (exists|j: int|
                0 <= j < segments_of(events)[i].len() && is_state_setter(
                    segments_of(events)[i][j],
                )) ==> inventory_of(events)[i].port.state != PortState::Unknown,
{
    lemma_fold_by_segments(events);
    assert forall|i: int|
        0 <= i < inventory_of(events).len() && (exists|j: int|
            0 <= j < segments_of(events)[i].len() && is_state_setter(
                segments_of(events)[i][j],
            )) implies inventory_of(events)[i].port.state != PortState::Unknown by {
        lemma_segment_state(zero_record(), segments_of(events)[i]);
    }
}

} // verus!
