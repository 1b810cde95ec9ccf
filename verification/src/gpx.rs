//! The GPX writer: the document as an ordered sequence of start, text and end events.
//!
//! The writer is named by the local time of the first emission. It opens with the
//! declaration, the root element, one track called `Move` and one open segment; every
//! track point adds one `trkpt`; the end closes segment, track and root.

use crate::calendar::{file_name_for, file_name_of, BadLocalTime};
use crate::digits::{decimal, decimal_text};
use crate::sample_rec::SampleRec;
use crate::track_point::{track_point_of, FieldError, Readings, TrkPt, TrkPtView};
use vstd::prelude::*;

verus! {

/// The encoding that the declaration names.
pub const ENCODING: &'static str = "utf-8";

/// The GPX version.
pub const GPX_VERSION: &'static str = "1.1";

/// The creator that the root element names.
pub const CREATOR: &'static str = "Movescount - http://www.movescount.com";

/// The schema locations that the root element lists.
pub const SCHEMA_LOCATION: &'static str =
    "http://www.topografix.com/GPX/1/1 http://www.topografix.com/GPX/1/1/gpx.xsd http://www.cluetrust.com/XML/GPXDATA/1/0 http://www.cluetrust.com/Schemas/gpxdata10.xsd http://www.garmin.com/xmlschemas/TrackPointExtension/v1 http://www.garmin.com/xmlschemas/TrackPointExtensionv1.xsd";

/// The namespace behind the prefix `xsi`.
pub const XSI_NAMESPACE: &'static str = "http://www.w3.org/2001/XMLSchema-instance";

/// The namespace behind the prefix `gpxdata`.
pub const GPXDATA_NAMESPACE: &'static str = "http://www.cluetrust.com/XML/GPXDATA/1/0";

/// The namespace behind the prefix `gpxtpx`.
pub const GPXTPX_NAMESPACE: &'static str = "http://www.garmin.com/xmlschemas/TrackPointExtension/v1";

/// The default namespace.
pub const GPX_NAMESPACE: &'static str = "http://www.topografix.com/GPX/1/1";

/// One event of the output document.
#[derive(Clone, Debug, PartialEq, Eq)]
pub enum XmlOut {
    /// The XML declaration, version 1.0.
    Declaration { encoding: String, standalone: bool },
    /// A start tag. A name may carry a prefix, as in `gpxdata:temp`. A namespace is a
    /// prefix and a URI; the empty prefix declares the default namespace. Of two
    /// namespaces with one prefix the later counts.
    Open { name: String, attributes: Vec<(String, String)>, namespaces: Vec<(String, String)> },
    /// Character data.
    Text(String),
    /// The end tag of the innermost open element.
    Close,
}

/// An [`XmlOut`] with its texts as sequences of characters.
pub enum XmlOutView {
    Declaration { encoding: Seq<char>, standalone: bool },
    Open {
        name: Seq<char>,
        attributes: Seq<(Seq<char>, Seq<char>)>,
        namespaces: Map<Seq<char>, Seq<char>>,
    },
    Text(Seq<char>),
    Close,
}

/// The namespaces that a list of prefixes and URIs declares: for each prefix the URI of
/// its last entry.
pub open spec fn namespace_map(pairs: Seq<(Seq<char>, Seq<char>)>) -> Map<Seq<char>, Seq<char>>
    decreases pairs.len(),
{
    if pairs.len() == 0 {
        Map::empty()
    } else {
        namespace_map(pairs.drop_last()).insert(pairs.last().0, pairs.last().1)
    }
}

impl View for XmlOut {
    type V = XmlOutView;

    open spec fn view(&self) -> XmlOutView {
        match self {
            XmlOut::Declaration { encoding, standalone } => XmlOutView::Declaration {
                encoding: encoding@,
                standalone: *standalone,
            },
            XmlOut::Open { name, attributes, namespaces } => XmlOutView::Open {
                name: name@,
                attributes: attributes.deep_view(),
                namespaces: namespace_map(namespaces.deep_view()),
            },
            XmlOut::Text(text) => XmlOutView::Text(text@),
            XmlOut::Close => XmlOutView::Close,
        }
    }
}

impl DeepView for XmlOut {
    type V = XmlOutView;

    open spec fn deep_view(&self) -> XmlOutView {
        self@
    }
}

/// A start tag without attributes.
pub open spec fn open(name: Seq<char>) -> XmlOutView {
    XmlOutView::Open { name, attributes: Seq::empty(), namespaces: Map::empty() }
}

/// An element that holds text and nothing else.
pub open spec fn element(name: Seq<char>, text: Seq<char>) -> Seq<XmlOutView> {
    seq![open(name), XmlOutView::Text(text), XmlOutView::Close]
}

/// The declaration of the document.
pub open spec fn declaration() -> XmlOutView {
    XmlOutView::Declaration { encoding: ENCODING@, standalone: false }
}

/// The namespaces that the root element declares, the default namespace last.
pub open spec fn gpx_namespaces() -> Seq<(Seq<char>, Seq<char>)> {
    seq![
        ("xsi"@, XSI_NAMESPACE@),
        ("gpxdata"@, GPXDATA_NAMESPACE@),
        ("gpxtpx"@, GPXTPX_NAMESPACE@),
        (""@, GPX_NAMESPACE@),
    ]
}

/// The start tag of the root element.
pub open spec fn gpx_root() -> XmlOutView {
    XmlOutView::Open {
        name: "gpx"@,
        attributes: seq![
            ("version"@, GPX_VERSION@),
            ("creator"@, CREATOR@),
            ("xsi:schemaLocation"@, SCHEMA_LOCATION@),
        ],
        namespaces: namespace_map(gpx_namespaces()),
    }
}

/// What opens the document: declaration, root, a track named `Move`, an open segment.
pub open spec fn prelude() -> Seq<XmlOutView> {
    seq![declaration(), gpx_root(), open("trk"@)] + element("name"@, "Move"@) + seq![
        open("trkseg"@),
    ]
}

/// What closes the document: the segment, the track, the root.
pub open spec fn postlude() -> Seq<XmlOutView> {
    seq![XmlOutView::Close, XmlOutView::Close, XmlOutView::Close]
}

/// The start tag of a track point.
pub open spec fn trkpt_start(point: TrkPtView) -> XmlOutView {
    XmlOutView::Open {
        name: "trkpt"@,
        attributes: seq![("lat"@, point.latitude_degrees), ("lon"@, point.longitude_degrees)],
        namespaces: Map::empty(),
    }
}

/// The heart rate element, where the point has a heart rate.
pub open spec fn heart_rate_part(point: TrkPtView) -> Seq<XmlOutView> {
    match point.hr_bpm {
        Some(bpm) => element("gpxtpx:hr"@, decimal(bpm as nat)),
        None => Seq::empty(),
    }
}

/// The cadence element, where the point has a cadence.
pub open spec fn cadence_part(point: TrkPtView) -> Seq<XmlOutView> {
    match point.cadence_ffm {
        Some(ffm) => element("gpxdata:cadence"@, decimal(ffm as nat)),
        None => Seq::empty(),
    }
}

/// The distance and altitude elements, written only where the point has a cadence.
pub open spec fn distance_part(point: TrkPtView) -> Seq<XmlOutView> {
    if point.cadence_ffm is Some {
        element("gpxdata:distance"@, point.distance_m) + element(
            "gpxdata:altitude"@,
            point.altitude_m,
        )
    } else {
        Seq::empty()
    }
}

/// What comes before the heart rate: the start tag, elevation, time, and the two
/// start tags of the extensions.
pub open spec fn trkpt_head(point: TrkPtView) -> Seq<XmlOutView> {
    seq![trkpt_start(point)] + element("ele"@, point.altitude_m) + element(
        "time"@,
        point.time_utc,
    ) + seq![open("extensions"@), open("gpxtpx:TrackPointExtension"@)]
}

/// What comes after the heart rate, from the end of the track point extension on.
pub open spec fn trkpt_tail(point: TrkPtView) -> Seq<XmlOutView> {
    seq![XmlOutView::Close] + cadence_part(point) + element("gpxdata:temp"@, point.temperature_c)
        + distance_part(point) + element(
        "gpxdata:seaLevelPressure"@,
        decimal(point.sea_level_pressure_millibar as nat),
    ) + element("gpxdata:speed"@, point.speed_mps) + element(
        "gpxdata:verticalSpeed"@,
        point.vertical_speed_mps,
    ) + seq![XmlOutView::Close, XmlOutView::Close]
}

/// The events of one track point.
pub open spec fn track_point_events(point: TrkPtView) -> Seq<XmlOutView> {
    trkpt_head(point) + heart_rate_part(point) + trkpt_tail(point)
}

/// The events of the track points `points`, one after the other.
pub open spec fn track_events(points: Seq<TrkPtView>) -> Seq<XmlOutView>
    decreases points.len(),
{
    if points.len() == 0 {
        Seq::empty()
    } else {
        track_events(points.drop_last()) + track_point_events(points.last())
    }
}

/// The whole document for the track points `points`.
pub open spec fn document(points: Seq<TrkPtView>) -> Seq<XmlOutView> {
    prelude() + track_events(points) + postlude()
}

/// The writer's state: the name of its file and the events written so far.
pub struct GpxWriterView {
    pub file_name: Seq<char>,
    pub events: Seq<XmlOutView>,
}

/// A writer of one GPX document.
pub struct GpxWriter {
    file_name: String,
    events: Vec<XmlOut>,
}

impl View for GpxWriter {
    type V = GpxWriterView;

    closed spec fn view(&self) -> GpxWriterView {
        GpxWriterView { file_name: self.file_name@, events: self.events.deep_view() }
    }
}

impl GpxWriter {
    /// A writer for the file `file_name` with nothing written.
    pub fn new(file_name: String) -> (writer: GpxWriter)
        ensures
            writer@.file_name == file_name@,
            writer@.events == Seq::<XmlOutView>::empty(),
    {
        let writer = GpxWriter { file_name, events: Vec::new() };
        assert(writer.events.deep_view() =~= Seq::empty());
        writer
    }

    /// The name of the file that the document is for.
    pub fn file_name(&self) -> (name: String)
        ensures
            name@ == self@.file_name,
    {
        self.file_name.clone()
    }

    /// The events written so far.
    pub fn events(&self) -> (events: &Vec<XmlOut>)
        ensures
            events.deep_view() == self@.events,
    {
        &self.events
    }

    /// Appends one event.
    fn write(&mut self, event: XmlOut)
        ensures
            final(self)@.file_name == old(self)@.file_name,
            final(self)@.events == old(self)@.events.push(event@),
    {
        self.events.push(event);
        assert(self.events.deep_view() =~= old(self).events.deep_view().push(event@));
    }

    /// Writes everything that comes before the first track point.
    pub fn write_prelude(&mut self)
        ensures
            final(self)@.file_name == old(self)@.file_name,
            final(self)@.events == old(self)@.events + prelude(),
    {
        self.write_document_declaration();
        self.open_gpx();
        self.open_trk();
        self.name("Move");
        self.open_trkseg();
        assert(self@.events =~= old(self)@.events + prelude());
    }

    /// Writes the XML declaration.
    pub fn write_document_declaration(&mut self)
        ensures
            final(self)@.file_name == old(self)@.file_name,
            final(self)@.events == old(self)@.events.push(declaration()),
    {
        self.write(XmlOut::Declaration { encoding: ENCODING.to_owned(), standalone: false });
    }

    /// Opens the root element, with its version, creator, schema locations and
    /// namespaces.
    pub fn open_gpx(&mut self)
        ensures
            final(self)@.file_name == old(self)@.file_name,
            final(self)@.events == old(self)@.events.push(gpx_root()),
    {
        let mut attributes: Vec<(String, String)> = Vec::new();
        attributes.push(("version".to_owned(), GPX_VERSION.to_owned()));
        attributes.push(("creator".to_owned(), CREATOR.to_owned()));
        attributes.push(("xsi:schemaLocation".to_owned(), SCHEMA_LOCATION.to_owned()));
        let mut namespaces: Vec<(String, String)> = Vec::new();
        namespaces.push(("xsi".to_owned(), XSI_NAMESPACE.to_owned()));
        namespaces.push(("gpxdata".to_owned(), GPXDATA_NAMESPACE.to_owned()));
        namespaces.push(("gpxtpx".to_owned(), GPXTPX_NAMESPACE.to_owned()));
        namespaces.push(("".to_owned(), GPX_NAMESPACE.to_owned()));
        assert(attributes.deep_view() =~= gpx_root()->attributes);
        assert(namespaces.deep_view() =~= gpx_namespaces());
        self.write(XmlOut::Open { name: "gpx".to_owned(), attributes, namespaces });
    }

    /// Opens the track.
    pub fn open_trk(&mut self)
        ensures
            final(self)@.file_name == old(self)@.file_name,
            final(self)@.events == old(self)@.events.push(open("trk"@)),
    {
        self.start_element("trk");
    }

    /// Writes the track's name.
    pub fn name(&mut self, name: &str)
        ensures
            final(self)@.file_name == old(self)@.file_name,
            final(self)@.events == old(self)@.events + element("name"@, name@),
    {
        self.dump_element("name", name);
    }

    /// Opens the track segment.
    pub fn open_trkseg(&mut self)
        ensures
            final(self)@.file_name == old(self)@.file_name,
            final(self)@.events == old(self)@.events.push(open("trkseg"@)),
    {
        self.start_element("trkseg");
    }

    /// Opens an element without attributes.
    pub fn start_element(&mut self, element: &str)
        ensures
            final(self)@.file_name == old(self)@.file_name,
            final(self)@.events == old(self)@.events.push(open(element@)),
    {
        let attributes: Vec<(String, String)> = Vec::new();
        let namespaces: Vec<(String, String)> = Vec::new();
        assert(attributes.deep_view() =~= Seq::empty());
        assert(namespaces.deep_view() =~= Seq::empty());
        self.write(XmlOut::Open { name: element.to_owned(), attributes, namespaces });
    }

    /// Closes the innermost open element.
    pub fn end_element(&mut self)
        ensures
            final(self)@.file_name == old(self)@.file_name,
            final(self)@.events == old(self)@.events.push(XmlOutView::Close),
    {
        self.write(XmlOut::Close);
    }

    /// Writes an element that holds `value` as text.
    pub fn dump_element(&mut self, element: &str, value: &str)
        ensures
            final(self)@.file_name == old(self)@.file_name,
            final(self)@.events == old(self)@.events + self::element(element@, value@),
    {
        self.start_element(element);
        self.write(XmlOut::Text(value.to_owned()));
        self.end_element();
        assert(self@.events =~= old(self)@.events + self::element(element@, value@));
    }

    /// Closes the track segment.
    pub fn close_trkseg(&mut self)
        ensures
            final(self)@.file_name == old(self)@.file_name,
            final(self)@.events == old(self)@.events.push(XmlOutView::Close),
    {
        self.end_element();
    }

    /// Closes the track.
    pub fn close_trk(&mut self)
        ensures
            final(self)@.file_name == old(self)@.file_name,
            final(self)@.events == old(self)@.events.push(XmlOutView::Close),
    {
        self.end_element();
    }

    /// Closes the root element.
    pub fn close_gpx(&mut self)
        ensures
            final(self)@.file_name == old(self)@.file_name,
            final(self)@.events == old(self)@.events.push(XmlOutView::Close),
    {
        self.end_element();
    }

    /// Writes everything that comes after the last track point.
    pub fn write_postlude(&mut self)
        ensures
            final(self)@.file_name == old(self)@.file_name,
            final(self)@.events == old(self)@.events + postlude(),
    {
        self.close_trkseg();
        self.close_trk();
        self.close_gpx();
        assert(self@.events =~= old(self)@.events + postlude());
    }

    /// Opens the writer for a stream whose first emitted sample is `sample`: names the
    /// file after the sample's local time and writes the prelude. Fails if the local
    /// time text is not a date and time.
    pub fn writer_for_sample(sample: &SampleRec) -> (opened: Result<GpxWriter, BadLocalTime>)
        ensures
            opened is Ok == file_name_of(sample@.local_time) is Some,
            opened matches Ok(writer) ==> {
                &&& Some(writer@.file_name) == file_name_of(sample@.local_time)
                &&& writer@.events == prelude()
            },
    {
        match file_name_for(sample.local_time.as_str()) {
            Ok(file_name) => {
                let mut writer = GpxWriter::new(file_name);
                writer.write_prelude();
                assert(writer@.events =~= prelude());
                Ok(writer)
            },
            Err(failure) => Err(failure),
        }
    }
}

impl TrkPt {
    /// Writes this point as one `trkpt` element.
    pub fn dump(&self, writer: &mut GpxWriter)
        ensures
            final(writer)@.file_name == old(writer)@.file_name,
            final(writer)@.events == old(writer)@.events + track_point_events(self@),
    {
        let mut attributes: Vec<(String, String)> = Vec::new();
        attributes.push(("lat".to_owned(), self.latitude()));
        attributes.push(("lon".to_owned(), self.longitude()));
        let namespaces: Vec<(String, String)> = Vec::new();
        assert(attributes.deep_view() =~= trkpt_start(self@)->attributes);
        assert(namespaces.deep_view() =~= Seq::empty());
        writer.write(XmlOut::Open { name: "trkpt".to_owned(), attributes, namespaces });
        writer.dump_element("ele", self.altitude_m.as_str());
        writer.dump_element("time", self.time().as_str());
        writer.start_element("extensions");
        writer.start_element("gpxtpx:TrackPointExtension");
        assert(writer@.events =~= old(writer)@.events + trkpt_head(self@));
        if let Some(hr_bpm) = self.hr_bpm {
            writer.dump_element("gpxtpx:hr", decimal_text(hr_bpm).as_str());
        }
        assert(writer@.events =~= old(writer)@.events + trkpt_head(self@) + heart_rate_part(
            self@,
        ));
        let ghost after_heart_rate = writer@.events;
        writer.end_element();

        let has_cadence;
        match self.cadence_ffm {
            None => {
                has_cadence = false;
            },
            Some(ffm) => {
                has_cadence = true;
                writer.dump_element("gpxdata:cadence", decimal_text(ffm).as_str());
            },
        }

        writer.dump_element("gpxdata:temp", self.temperature_c.as_str());

        if has_cadence {
            writer.dump_element("gpxdata:distance", self.distance_m.as_str());
            writer.dump_element("gpxdata:altitude", self.altitude_m.as_str());
        }
        writer.dump_element(
            "gpxdata:seaLevelPressure",
            decimal_text(self.sea_level_pressure_millibar).as_str(),
        );
        writer.dump_element("gpxdata:speed", self.speed_mps.as_str());
        writer.dump_element("gpxdata:verticalSpeed", self.vertical_speed_mps.as_str());
        writer.end_element();
        writer.end_element();
        assert(writer@.events =~= after_heart_rate + trkpt_tail(self@));
        assert(writer@.events =~= old(writer)@.events + track_point_events(self@));
    }
}

impl SampleRec {
    /// Converts this snapshot and, if it converts, writes its track point. A snapshot
    /// that fails is dropped: nothing is written and the failure is handed out.
    pub fn dump(&self, readings: &Readings, writer: &mut GpxWriter) -> (dropped: Option<
        FieldError,
    >)
        ensures
            final(writer)@.file_name == old(writer)@.file_name,
            match track_point_of(self@, readings@) {
                Ok(point) => dropped is None && final(writer)@.events == old(writer)@.events
                    + track_point_events(point),
                Err(failure) => dropped == Some(failure) && final(writer)@.events == old(
                    writer,
                )@.events,
            },
    {
        match TrkPt::try_from(self, readings) {
            Ok(point) => {
                point.dump(writer);
                None
            },
            Err(failure) => Some(failure),
        }
    }
}

/// Whether `events` hold a start tag of the element called `name`.
pub open spec fn has_element(events: Seq<XmlOutView>, name: Seq<char>) -> bool {
    exists|i: int| 0 <= i < events.len() && #[trigger] is_start_of(events[i], name)
}

/// Whether `event` is a start tag of the element called `name`.
pub open spec fn is_start_of(event: XmlOutView, name: Seq<char>) -> bool {
    event matches XmlOutView::Open { name: found, .. } && found == name
}

/// A concatenation holds an element exactly if one of its two parts does.
pub proof fn lemma_has_element_concat(a: Seq<XmlOutView>, b: Seq<XmlOutView>, name: Seq<char>)
    ensures
        has_element(a + b, name) == (has_element(a, name) || has_element(b, name)),
{
    if has_element(a + b, name) {
        let i = choose|i: int| 0 <= i < (a + b).len() && #[trigger] is_start_of((a + b)[i], name);
        if i < a.len() {
            assert(is_start_of(a[i], name));
        } else {
            assert(is_start_of(b[i - a.len()], name));
        }
    }
    if has_element(a, name) {
        let i = choose|i: int| 0 <= i < a.len() && #[trigger] is_start_of(a[i], name);
        assert(is_start_of((a + b)[i], name));
    }
    if has_element(b, name) {
        let i = choose|i: int| 0 <= i < b.len() && #[trigger] is_start_of(b[i], name);
        assert(is_start_of((a + b)[i + a.len()], name));
    }
}

/// An element that holds text only has one start tag: its own.
pub proof fn lemma_has_element_single(found: Seq<char>, text: Seq<char>, name: Seq<char>)
    ensures
        has_element(element(found, text), name) == (found == name),
        has_element(seq![open(found)], name) == (found == name),
        !has_element(seq![XmlOutView::Close], name),
        !has_element(Seq::<XmlOutView>::empty(), name),
{
    if found == name {
        assert(is_start_of(element(found, text)[0], name));
        assert(is_start_of(seq![open(found)][0], name));
    }
}

/// A track point without cadence is written without a cadence element and without
/// the distance and altitude elements of the extensions.
pub proof fn lemma_no_cadence_no_distance(point: TrkPtView)
    requires
        point.cadence_ffm is None,
    ensures
        !has_element(track_point_events(point), "gpxdata:cadence"@),
        !has_element(track_point_events(point), "gpxdata:distance"@),
        !has_element(track_point_events(point), "gpxdata:altitude"@),
{
    lemma_names_differ();
    lemma_only_named_elements(point, "gpxdata:cadence"@);
    lemma_only_named_elements(point, "gpxdata:distance"@);
    lemma_only_named_elements(point, "gpxdata:altitude"@);
}

/// A track point without heart rate is written without a heart rate element.
pub proof fn lemma_no_heart_rate_no_element(point: TrkPtView)
    requires
        point.hr_bpm is None,
    ensures
        !has_element(track_point_events(point), "gpxtpx:hr"@),
{
    lemma_names_differ();
    lemma_only_named_elements(point, "gpxtpx:hr"@);
}

/// The heart rate touches nothing but its own element: two track points that differ in
/// the heart rate alone are written alike before and after the place of that element,
/// and a point without heart rate has nothing in that place.
pub proof fn lemma_heart_rate_is_apart(point: TrkPtView, other: TrkPtView)
    requires
        other == (TrkPtView { hr_bpm: other.hr_bpm, ..point }),
    ensures
        trkpt_head(point) == trkpt_head(other),
        trkpt_tail(point) == trkpt_tail(other),
        track_point_events(point) == trkpt_head(point) + heart_rate_part(point) + trkpt_tail(
            point,
        ),
        point.hr_bpm is None ==> track_point_events(point) == trkpt_head(point) + trkpt_tail(
            point,
        ),
        point.hr_bpm matches Some(bpm) ==> heart_rate_part(point) == element(
            "gpxtpx:hr"@,
            decimal(bpm as nat),
        ),
{
    if point.hr_bpm is None {
        assert(trkpt_head(point) + heart_rate_part(point) =~= trkpt_head(point));
    }
}

/// The names of the elements of a track point are all different from one another.
proof fn lemma_names_differ()
    ensures
        "trkpt"@.len() == 5,
        "ele"@.len() == 3,
        "time"@.len() == 4,
        "extensions"@.len() == 10,
        "gpxtpx:TrackPointExtension"@.len() == 26,
        "gpxtpx:hr"@.len() == 9,
        "gpxdata:cadence"@.len() == 15,
        "gpxdata:temp"@.len() == 12,
        "gpxdata:distance"@.len() == 16,
        "gpxdata:altitude"@.len() == 16,
        "gpxdata:seaLevelPressure"@.len() == 24,
        "gpxdata:speed"@.len() == 13,
        "gpxdata:verticalSpeed"@.len() == 21,
{
    reveal_strlit("trkpt");
    reveal_strlit("ele");
    reveal_strlit("time");
    reveal_strlit("extensions");
    reveal_strlit("gpxtpx:TrackPointExtension");
    reveal_strlit("gpxtpx:hr");
    reveal_strlit("gpxdata:cadence");
    reveal_strlit("gpxdata:temp");
    reveal_strlit("gpxdata:distance");
    reveal_strlit("gpxdata:altitude");
    reveal_strlit("gpxdata:seaLevelPressure");
    reveal_strlit("gpxdata:speed");
    reveal_strlit("gpxdata:verticalSpeed");
}

/// A track point holds the element called `name` only if `name` is one of the names
/// that its parts are written under.
proof fn lemma_only_named_elements(point: TrkPtView, name: Seq<char>)
    ensures
        has_element(track_point_events(point), name) ==> {
            ||| name == "trkpt"@
            ||| name == "ele"@
            ||| name == "time"@
            ||| name == "extensions"@
            ||| name == "gpxtpx:TrackPointExtension"@
            ||| (name == "gpxtpx:hr"@ && point.hr_bpm is Some)
            ||| (name == "gpxdata:cadence"@ && point.cadence_ffm is Some)
            ||| name == "gpxdata:temp"@
            ||| (name == "gpxdata:distance"@ && point.cadence_ffm is Some)
            ||| (name == "gpxdata:altitude"@ && point.cadence_ffm is Some)
            ||| name == "gpxdata:seaLevelPressure"@
            ||| name == "gpxdata:speed"@
            ||| name == "gpxdata:verticalSpeed"@
        },
{
    let close = seq![XmlOutView::Close];
    let start = seq![trkpt_start(point)];
    let ele = element("ele"@, point.altitude_m);
    let time = element("time"@, point.time_utc);
    let opens = seq![open("extensions"@), open("gpxtpx:TrackPointExtension"@)];
    let hr = heart_rate_part(point);
    let cadence = cadence_part(point);
    let temp = element("gpxdata:temp"@, point.temperature_c);
    let distance = distance_part(point);
    let pressure = element(
        "gpxdata:seaLevelPressure"@,
        decimal(point.sea_level_pressure_millibar as nat),
    );
    let speed = element("gpxdata:speed"@, point.speed_mps);
    let vertical = element("gpxdata:verticalSpeed"@, point.vertical_speed_mps);
    let closes = seq![XmlOutView::Close, XmlOutView::Close];

    // The head.
    lemma_has_element_concat(start, ele, name);
    lemma_has_element_concat(start + ele, time, name);
    lemma_has_element_concat(start + ele + time, opens, name);
    // The tail.
    lemma_has_element_concat(close, cadence, name);
    lemma_has_element_concat(close + cadence, temp, name);
    lemma_has_element_concat(close + cadence + temp, distance, name);
    lemma_has_element_concat(close + cadence + temp + distance, pressure, name);
    lemma_has_element_concat(close + cadence + temp + distance + pressure, speed, name);
    lemma_has_element_concat(
        close + cadence + temp + distance + pressure + speed,
        vertical,
        name,
    );
    lemma_has_element_concat(
        close + cadence + temp + distance + pressure + speed + vertical,
        closes,
        name,
    );
    // The whole.
    lemma_has_element_concat(trkpt_head(point), hr, name);
    lemma_has_element_concat(trkpt_head(point) + hr, trkpt_tail(point), name);

    // The parts.
    lemma_has_element_single("ele"@, point.altitude_m, name);
    lemma_has_element_single("time"@, point.time_utc, name);
    lemma_has_element_single("gpxdata:temp"@, point.temperature_c, name);
    lemma_has_element_single(
        "gpxdata:seaLevelPressure"@,
        decimal(point.sea_level_pressure_millibar as nat),
        name,
    );
    lemma_has_element_single("gpxdata:speed"@, point.speed_mps, name);
    lemma_has_element_single("gpxdata:verticalSpeed"@, point.vertical_speed_mps, name);
    if has_element(start, name) {
        let i = choose|i: int| 0 <= i < start.len() && #[trigger] is_start_of(start[i], name);
        assert(name == "trkpt"@);
    }
    if has_element(opens, name) {
        let i = choose|i: int| 0 <= i < opens.len() && #[trigger] is_start_of(opens[i], name);
        assert(name == "extensions"@ || name == "gpxtpx:TrackPointExtension"@);
    }
    if has_element(closes, name) {
        let i = choose|i: int| 0 <= i < closes.len() && #[trigger] is_start_of(closes[i], name);
        assert(false);
    }
    match point.hr_bpm {
        Some(bpm) => {
            lemma_has_element_single("gpxtpx:hr"@, decimal(bpm as nat), name);
        },
        None => {
            lemma_has_element_single("gpxtpx:hr"@, Seq::empty(), name);
        },
    }
    match point.cadence_ffm {
        Some(ffm) => {
            lemma_has_element_single("gpxdata:cadence"@, decimal(ffm as nat), name);
            lemma_has_element_single("gpxdata:distance"@, point.distance_m, name);
            lemma_has_element_single("gpxdata:altitude"@, point.altitude_m, name);
            lemma_has_element_concat(
                element("gpxdata:distance"@, point.distance_m),
                element("gpxdata:altitude"@, point.altitude_m),
                name,
            );
        },
        None => {
            lemma_has_element_single("gpxdata:cadence"@, Seq::empty(), name);
        },
    }
}

} // verus!
