//! The conversion of one stream, in two halves around the numeric stage.
//!
//! The first half reads the stream and selects: it opens the writer at the first
//! periodic boundary and collects the snapshots to emit. The numeric stage then reads
//! each snapshot's texts as numbers. The second half turns every snapshot that converts
//! into a track point, drops the others, closes the document and renders it.

use crate::calendar::file_name_of;
use crate::emitter::{render, rendered};
use crate::gating::{boundary_before, lemma_flags};
use crate::gpx::{
    document, postlude, prelude, track_events, track_point_events, GpxWriter, GpxWriterView,
    XmlOutView,
};
use crate::reader::{read_tokens, xml_tokens, Parsed};
use crate::sample_rec::{SampleRec, SampleRecView};
use crate::stream::{run, scan, Token};
use crate::track_point::{track_point_of, FieldError, Readings, ReadingsView, TrkPtView};
use vstd::prelude::*;

verus! {

/// Why the conversion of a stream fails as a whole.
#[derive(Clone, Debug, PartialEq, Eq)]
pub enum ConversionError {
    /// The stream is not well-formed XML; with the parser's message.
    Malformed(String),
    /// The local time of the first periodic sample is no date and time; with its text.
    BadLocalTime(String),
    /// The stream holds no periodic sample.
    NoData,
    /// The emitter refused the document.
    Write,
}

/// A [`ConversionError`] with its texts as sequences of characters.
pub enum ConversionErrorView {
    Malformed(Seq<char>),
    BadLocalTime(Seq<char>),
    NoData,
    Write,
}

impl View for ConversionError {
    type V = ConversionErrorView;

    open spec fn view(&self) -> ConversionErrorView {
        match self {
            ConversionError::Malformed(message) => ConversionErrorView::Malformed(message@),
            ConversionError::BadLocalTime(text) => ConversionErrorView::BadLocalTime(text@),
            ConversionError::NoData => ConversionErrorView::NoData,
            ConversionError::Write => ConversionErrorView::Write,
        }
    }
}

/// What the first half hands to the second: the writer, opened, and the snapshots to
/// emit, oldest first.
pub struct Selection {
    pub writer: GpxWriter,
    pub samples: Vec<SampleRec>,
}

/// A [`Selection`] as the contracts see it.
pub struct SelectionView {
    pub writer: GpxWriterView,
    pub samples: Seq<SampleRecView>,
}

impl View for Selection {
    type V = SelectionView;

    open spec fn view(&self) -> SelectionView {
        SelectionView { writer: self.writer@, samples: self.samples.deep_view() }
    }
}

/// What the first half makes of a parsed stream. A local time that names no file is
/// reported before a fault of the stream, because the writer is opened while the stream
/// is read; a stream without fault and without periodic sample holds no data.
pub open spec fn selection_of(parsed: Parsed) -> Result<SelectionView, ConversionErrorView> {
    let state = run(parsed.tokens);
    match state.opened_at {
        Some(first) => match file_name_of(first.local_time) {
            None => Err(ConversionErrorView::BadLocalTime(first.local_time)),
            Some(file_name) => match parsed.fault {
                Some(message) => Err(ConversionErrorView::Malformed(message)),
                None => Ok(
                    SelectionView {
                        writer: GpxWriterView { file_name, events: prelude() },
                        samples: state.emitted,
                    },
                ),
            },
        },
        None => match parsed.fault {
            Some(message) => Err(ConversionErrorView::Malformed(message)),
            None => Err(ConversionErrorView::NoData),
        },
    }
}

/// The first half on a stream that has been read: `tokens` are its tokens and `fault`
/// the parser's message if the stream broke off.
pub fn select(tokens: &Vec<Token>, fault: Option<String>) -> (selected: Result<
    Selection,
    ConversionError,
>)
    ensures
        selected is Ok == selection_of(
            Parsed { tokens: tokens.deep_view(), fault: fault.deep_view() },
        ) is Ok,
        selected matches Ok(selection) ==> Ok::<SelectionView, ConversionErrorView>(selection@)
            == selection_of(Parsed { tokens: tokens.deep_view(), fault: fault.deep_view() }),
        selected matches Err(failure) ==> Err::<SelectionView, ConversionErrorView>(failure@)
            == selection_of(Parsed { tokens: tokens.deep_view(), fault: fault.deep_view() }),
{
    let (first, samples) = scan(tokens);
    match first {
        Some(sample) => match GpxWriter::writer_for_sample(&sample) {
            Err(_) => Err(ConversionError::BadLocalTime(sample.local_time)),
            Ok(writer) => match fault {
                Some(message) => Err(ConversionError::Malformed(message)),
                None => Ok(Selection { writer, samples }),
            },
        },
        None => match fault {
            Some(message) => Err(ConversionError::Malformed(message)),
            None => Err(ConversionError::NoData),
        },
    }
}

/// A converter for one input stream.
pub struct MoveConverter {
    reader: Vec<u8>,
}

impl View for MoveConverter {
    type V = Seq<u8>;

    closed spec fn view(&self) -> Seq<u8> {
        self.reader@
    }
}

impl MoveConverter {
    /// A converter for the stream whose bytes are `reader`.
    pub fn new(reader: Vec<u8>) -> (converter: MoveConverter)
        ensures
            converter@ == reader@,
    {
        MoveConverter { reader }
    }

    /// Reads the stream and selects what to emit.
    pub fn convert(self) -> (selected: Result<Selection, ConversionError>)
        ensures
            selected is Ok == selection_of(xml_tokens(self@)) is Ok,
            selected matches Ok(selection) ==> Ok::<SelectionView, ConversionErrorView>(
                selection@,
            ) == selection_of(xml_tokens(self@)),
            selected matches Err(failure) ==> Err::<SelectionView, ConversionErrorView>(
                failure@,
            ) == selection_of(xml_tokens(self@)),
    {
        let (tokens, fault) = read_tokens(self.reader.as_slice());
        select(&tokens, fault)
    }
}

/// A snapshot with what the numeric stage made of it.
pub struct Record {
    pub sample: SampleRec,
    pub readings: Readings,
}

/// A [`Record`] as the contracts see it.
pub struct RecordView {
    pub sample: SampleRecView,
    pub readings: ReadingsView,
}

impl View for Record {
    type V = RecordView;

    open spec fn view(&self) -> RecordView {
        RecordView { sample: self.sample@, readings: self.readings@ }
    }
}

impl DeepView for Record {
    type V = RecordView;

    open spec fn deep_view(&self) -> RecordView {
        self@
    }
}

/// A record that was dropped: its position among the records, and its failure.
#[derive(Clone, Copy, Debug, PartialEq, Eq, Structural)]
pub struct Dropped {
    pub index: usize,
    pub failure: FieldError,
}

impl RecordView {
    /// What becomes of this record.
    pub open spec fn outcome(self) -> Result<TrkPtView, FieldError> {
        track_point_of(self.sample, self.readings)
    }
}

/// The track points of the records that convert, in the records' order.
pub open spec fn kept(records: Seq<RecordView>) -> Seq<TrkPtView>
    decreases records.len(),
{
    if records.len() == 0 {
        Seq::empty()
    } else {
        match records.last().outcome() {
            Ok(point) => kept(records.drop_last()).push(point),
            Err(_) => kept(records.drop_last()),
        }
    }
}

/// The records that fail, each with its position and failure, in the records' order.
pub open spec fn dropped(records: Seq<RecordView>) -> Seq<Dropped>
    decreases records.len(),
{
    if records.len() == 0 {
        Seq::empty()
    } else {
        match records.last().outcome() {
            Ok(_) => dropped(records.drop_last()),
            Err(failure) => dropped(records.drop_last()).push(
                Dropped { index: (records.len() - 1) as usize, failure },
            ),
        }
    }
}

/// A finished conversion: the file's name, its bytes, and the records dropped on the
/// way.
pub struct Written {
    pub file_name: String,
    pub document: Vec<u8>,
    pub dropped: Vec<Dropped>,
}

/// A [`Written`] as the contracts see it.
pub struct WrittenView {
    pub file_name: Seq<char>,
    pub document: Seq<u8>,
    pub dropped: Seq<Dropped>,
}

impl View for Written {
    type V = WrittenView;

    open spec fn view(&self) -> WrittenView {
        WrittenView {
            file_name: self.file_name@,
            document: self.document@,
            dropped: self.dropped@,
        }
    }
}

/// The events of the finished document: what the writer held, one track point for
/// every record that converts, and the postlude.
pub open spec fn finished_events(writer: GpxWriterView, records: Seq<RecordView>) -> Seq<
    XmlOutView,
> {
    writer.events + track_events(kept(records)) + postlude()
}

/// What the second half makes of an open writer and the records.
pub open spec fn written_of(writer: GpxWriterView, records: Seq<RecordView>) -> Result<
    WrittenView,
    ConversionErrorView,
> {
    match rendered(finished_events(writer, records)) {
        Some(document) => Ok(
            WrittenView { file_name: writer.file_name, document, dropped: dropped(records) },
        ),
        None => Err(ConversionErrorView::Write),
    }
}

/// One more record: its track point is appended where it converts, its failure where
/// it does not.
pub proof fn lemma_one_more_record(records: Seq<RecordView>, n: int)
    requires
        0 <= n < records.len(),
    ensures
        kept(records.take(n + 1)) == match records[n].outcome() {
            Ok(point) => kept(records.take(n)).push(point),
            Err(_) => kept(records.take(n)),
        },
        dropped(records.take(n + 1)) == match records[n].outcome() {
            Ok(_) => dropped(records.take(n)),
            Err(failure) => dropped(records.take(n)).push(Dropped { index: n as usize, failure }),
        },
        track_events(kept(records.take(n + 1))) == match records[n].outcome() {
            Ok(point) => track_events(kept(records.take(n))) + track_point_events(point),
            Err(_) => track_events(kept(records.take(n))),
        },
{
    assert(records.take(n + 1).drop_last() =~= records.take(n));
    assert(records.take(n + 1).last() == records[n]);
    match records[n].outcome() {
        Ok(point) => {
            let before = kept(records.take(n));
            assert(before.push(point).drop_last() =~= before);
            assert(before.push(point).last() == point);
        },
        Err(_) => {},
    }
}

/// The second half: writes one track point for every record that converts, drops the
/// others, closes the document and renders it.
pub fn write_track(writer: GpxWriter, records: &Vec<Record>) -> (written: Result<
    Written,
    ConversionError,
>)
    ensures
        written is Ok == written_of(writer@, records.deep_view()) is Ok,
        written matches Ok(done) ==> Ok::<WrittenView, ConversionErrorView>(done@) == written_of(
            writer@,
            records.deep_view(),
        ),
        written matches Err(failure) ==> Err::<WrittenView, ConversionErrorView>(failure@)
            == written_of(writer@, records.deep_view()),
{
    let ghost all = records.deep_view();
    let ghost opened = writer@;
    let mut writer = writer;
    let mut failures: Vec<Dropped> = Vec::new();
    let mut i: usize = 0;
    assert(all.take(0) =~= Seq::empty());
    assert(writer@.events =~= opened.events + track_events(kept(all.take(0))));
    while i < records.len()
        invariant
            i <= records.len(),
            all == records.deep_view(),
            writer@.file_name == opened.file_name,
            writer@.events == opened.events + track_events(kept(all.take(i as int))),
            failures@ == dropped(all.take(i as int)),
        decreases records.len() - i,
    {
        proof {
            lemma_one_more_record(all, i as int);
        }
        let record = &records[i];
        assert(record@ == all[i as int]);
        match record.sample.dump(&record.readings, &mut writer) {
            Some(failure) => {
                failures.push(Dropped { index: i, failure });
            },
            None => {
                assert(writer@.events =~= opened.events + track_events(
                    kept(all.take(i + 1)),
                ));
            },
        }
        i = i + 1;
    }
    assert(all.take(i as int) =~= all);
    writer.write_postlude();
    assert(writer@.events =~= finished_events(opened, all));
    match render(writer.events()) {
        Some(document) => {
            assert(document.deep_view() =~= document@);
            Ok(Written { file_name: writer.file_name(), document, dropped: failures })
        },
        None => Err(ConversionError::Write),
    }
}

/// A stream holds no data exactly if it is well-formed and has no periodic sample
/// boundary: then no writer is opened and nothing is selected.
pub proof fn lemma_no_data(parsed: Parsed)
    ensures
        (selection_of(parsed) == Err::<SelectionView, ConversionErrorView>(
            ConversionErrorView::NoData,
        )) == (parsed.fault is None && !boundary_before(
            parsed.tokens,
            parsed.tokens.len() as int,
        )),
{
    lemma_flags(parsed.tokens, parsed.tokens.len() as int);
    assert(parsed.tokens.take(parsed.tokens.len() as int) =~= parsed.tokens);
}

/// A record that fails is dropped alone: the track points kept are those of the other
/// records, as if the record had not been there.
pub proof fn lemma_dropped_alone(records: Seq<RecordView>, k: int)
    requires
        0 <= k < records.len(),
        records[k].outcome() is Err,
    ensures
        kept(records) == kept(records.remove(k)),
    decreases records.len(),
{
    if k == records.len() - 1 {
        assert(records.remove(k) =~= records.drop_last());
    } else {
        assert(records.remove(k).last() == records.last());
        assert(records.remove(k).drop_last() =~= records.drop_last().remove(k));
        lemma_dropped_alone(records.drop_last(), k);
    }
}

/// A record that fails is reported: its position and its failure are among the
/// records dropped.
pub proof fn lemma_dropped_reported(records: Seq<RecordView>, k: int)
    requires
        0 <= k < records.len(),
        records[k].outcome() is Err,
    ensures
        dropped(records).contains(
            Dropped { index: k as usize, failure: records[k].outcome()->Err_0 },
        ),
    decreases records.len(),
{
    let report = Dropped { index: k as usize, failure: records[k].outcome()->Err_0 };
    if k == records.len() - 1 {
        let reports = dropped(records);
        assert(reports[reports.len() - 1] == report);
    } else {
        lemma_dropped_reported(records.drop_last(), k);
        let earlier = dropped(records.drop_last());
        let at = choose|at: int| 0 <= at < earlier.len() && earlier[at] == report;
        assert(dropped(records)[at] == report);
    }
}

/// For a writer as the first half leaves it, the finished document is the prelude, one
/// track point for every record that converts, and the postlude.
pub proof fn lemma_whole_document(writer: GpxWriterView, records: Seq<RecordView>)
    requires
        writer.events == prelude(),
    ensures
        finished_events(writer, records) == document(kept(records)),
{
}

/// The finished document is closed, whatever was dropped.
pub proof fn lemma_document_closes(writer: GpxWriterView, records: Seq<RecordView>)
    ensures
        finished_events(writer, records).len() >= 3,
        finished_events(writer, records).skip(finished_events(writer, records).len() - 3)
            == postlude(),
{
    let events = finished_events(writer, records);
    assert(events.skip(events.len() - 3) =~= postlude());
}

} // verus!
