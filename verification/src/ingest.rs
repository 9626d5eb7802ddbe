//! Intake of multipart submissions.
//!
//! A submission arrives as a sequence of named fields, each a stream of
//! bytes. The fields are taken in one after the other, in the order of the
//! wire: `text` and `date` are decoded, `image` is gathered, every other
//! field is read to its end and dropped. Only when the body has ended is it
//! decided whether the submission is complete.
//!
//! Reading the body is the caller's part. The caller opens a field with
//! [`Ingestor::begin_field`], hands each chunk to [`FieldReader::push`],
//! closes the field with [`FieldReader::end`], and calls
//! [`Ingestor::finish`] when the body has ended. [`ingest`] does the same
//! for fields that are already in memory.

use crate::attachment::{
    fresh_id, guessed_category, is_fresh_id, media_category, place_attachment, placed, placement,
    written_view, StoredFile, IMAGE_CATEGORY,
};
use crate::date::{parse_date, parsed_date, CalendarDate};
use crate::error::{
    BadRequest, BadRequestView, IngestError, IngestErrorView, RequiredField,
};
use crate::models::UploadResponse;
use crate::text::{string_from_utf8, text_eq, utf8_text};
use vstd::prelude::*;
use vstd::string::StringExecFns;

verus! {

/// The name of the field that holds a submission's text.
pub const TEXT_FIELD: &'static str = "text";

/// The name of the field that holds a submission's date.
pub const DATE_FIELD: &'static str = "date";

/// The name of the field that holds the attachment.
pub const IMAGE_FIELD: &'static str = "image";

/// What the identifier of a submission's stored attachment begins with.
pub const SUBMISSION_PREFIX: &'static str = "todo_";

/// What the identifier of a stored upload begins with.
pub const UPLOAD_PREFIX: &'static str = "image_";

/// The file name assumed for an upload that names none.
pub const UNNAMED_UPLOAD: &'static str = "unknown.jpg";

/// What a body is taken in for.
#[derive(Debug, Clone, Copy, PartialEq, Eq, Structural)]
pub enum Intake {
    /// A submission: text, date and an optional image.
    Submission,
    /// An upload: an image and nothing else.
    Upload,
}

/// What a field is to the intake, by its name.
#[derive(Debug, Clone, Copy, PartialEq, Eq, Structural)]
pub enum FieldKind {
    Text,
    Date,
    Image,
    /// A field that the intake has no use for.
    Other,
}

/// The kind of the field called `name`. An upload knows only the image.
pub open spec fn field_kind(intake: Intake, name: Seq<char>) -> FieldKind {
    if name == IMAGE_FIELD@ {
        FieldKind::Image
    } else if intake == Intake::Submission && name == TEXT_FIELD@ {
        FieldKind::Text
    } else if intake == Intake::Submission && name == DATE_FIELD@ {
        FieldKind::Date
    } else {
        FieldKind::Other
    }
}

/// The kind of the field called `name`.
pub fn classify(intake: Intake, name: &str) -> (kind: FieldKind)
    ensures
        kind == field_kind(intake, name@),
{
    if text_eq(name, IMAGE_FIELD) {
        return FieldKind::Image;
    }
    match intake {
        Intake::Submission => {
            if text_eq(name, TEXT_FIELD) {
                FieldKind::Text
            } else if text_eq(name, DATE_FIELD) {
                FieldKind::Date
            } else {
                FieldKind::Other
            }
        },
        Intake::Upload => FieldKind::Other,
    }
}

/// One part of a multipart body, read to its end.
#[derive(Debug, Clone, PartialEq, Eq)]
pub struct MultipartField {
    /// The name that the part declares, if it declares one.
    pub name: Option<String>,
    /// The file name that the part advertises, if any.
    pub filename: Option<String>,
    /// The part's bytes.
    pub data: Vec<u8>,
}

/// The mathematical content of a [`MultipartField`].
pub struct FieldView {
    pub name: Option<Seq<char>>,
    pub filename: Option<Seq<char>>,
    pub data: Seq<u8>,
}

/// The content of an optional string.
pub open spec fn text_view(text: Option<String>) -> Option<Seq<char>> {
    match text {
        Some(t) => Some(t@),
        None => None,
    }
}

/// The content of an optional string slice.
pub open spec fn str_view(text: Option<&str>) -> Option<Seq<char>> {
    match text {
        Some(t) => Some(t@),
        None => None,
    }
}

impl View for MultipartField {
    type V = FieldView;

    open spec fn view(&self) -> FieldView {
        FieldView {
            name: text_view(self.name),
            filename: text_view(self.filename),
            data: self.data@,
        }
    }
}

/// The contents of a sequence of fields.
pub open spec fn field_views(fields: Seq<MultipartField>) -> Seq<FieldView> {
    Seq::new(fields.len(), |i: int| fields[i]@)
}

/// What has been gathered from the fields taken in so far.
pub struct CollectedView {
    /// The text of the last `text` field.
    pub text: Option<Seq<char>>,
    /// The text of the last `date` field, not yet read as a date.
    pub date: Option<Seq<char>>,
    /// The bytes of all `image` fields, in order.
    pub image: Seq<u8>,
    /// The file name that the last `image` field advertised.
    pub filename: Seq<char>,
    /// Whether there was an `image` field.
    pub has_image: bool,
}

/// What is gathered before the first field: nothing, under the file name
/// that the intake assumes for an image that names none.
pub open spec fn initial(intake: Intake) -> CollectedView {
    CollectedView {
        text: None,
        date: None,
        image: Seq::empty(),
        filename: match intake {
            Intake::Submission => Seq::empty(),
            Intake::Upload => UNNAMED_UPLOAD@,
        },
        has_image: false,
    }
}

/// Takes one field in. A field without a name, a `text` field that is no
/// UTF-8 and a `date` field that is no UTF-8 end the intake. A field of no
/// use changes nothing.
pub open spec fn absorb(intake: Intake, state: CollectedView, field: FieldView) -> Result<
    CollectedView,
    BadRequestView,
> {
    match field.name {
        None => Err(BadRequestView::FieldNameMissing),
        Some(name) => match field_kind(intake, name) {
            FieldKind::Text => match utf8_text(field.data) {
                Some(text) => Ok(CollectedView { text: Some(text), ..state }),
                None => Err(BadRequestView::InvalidUtf8),
            },
            FieldKind::Date => match utf8_text(field.data) {
                Some(text) => Ok(CollectedView { date: Some(text), ..state }),
                None => Err(BadRequestView::InvalidDate),
            },
            FieldKind::Image => Ok(
                CollectedView {
                    image: state.image + field.data,
                    filename: match field.filename {
                        Some(filename) => filename,
                        None => state.filename,
                    },
                    has_image: true,
                    ..state
                },
            ),
            FieldKind::Other => Ok(state),
        },
    }
}

/// Takes a sequence of fields in, in order, up to the first that ends the
/// intake.
pub open spec fn collect(intake: Intake, state: CollectedView, fields: Seq<FieldView>) -> Result<
    CollectedView,
    BadRequestView,
>
    decreases fields.len(),
{
    if fields.len() == 0 {
        Ok(state)
    } else {
        match absorb(intake, state, fields.first()) {
            Ok(next) => collect(intake, next, fields.drop_first()),
            Err(error) => Err(error),
        }
    }
}

/// The intake of one body, between two fields.
#[derive(Debug)]
pub struct Ingestor {
    intake: Intake,
    text: Option<String>,
    date: Option<String>,
    image: Vec<u8>,
    filename: String,
    has_image: bool,
}

impl View for Ingestor {
    type V = CollectedView;

    closed spec fn view(&self) -> CollectedView {
        CollectedView {
            text: text_view(self.text),
            date: text_view(self.date),
            image: self.image@,
            filename: self.filename@,
            has_image: self.has_image,
        }
    }
}

/// The intake of one body, inside a field.
#[derive(Debug)]
pub struct FieldReader {
    ingestor: Ingestor,
    name: String,
    filename: Option<String>,
    buffer: Vec<u8>,
}

/// The mathematical content of a [`FieldReader`].
pub struct ReaderView {
    pub intake: Intake,
    /// What had been gathered when the field began.
    pub before: CollectedView,
    /// The field as far as it has been read. Of a field of no use no bytes
    /// are kept.
    pub field: FieldView,
}

impl View for FieldReader {
    type V = ReaderView;

    closed spec fn view(&self) -> ReaderView {
        ReaderView {
            intake: self.ingestor.intake,
            before: self.ingestor@,
            field: FieldView {
                name: Some(self.name@),
                filename: text_view(self.filename),
                data: self.buffer@,
            },
        }
    }
}

impl ReaderView {
    /// The kind of the field that is being read.
    pub open spec fn kind(self) -> FieldKind {
        field_kind(self.intake, self.field.name->0)
    }

    /// The reader after one more chunk of the field. The bytes of a field
    /// of no use are dropped.
    pub open spec fn pushed(self, chunk: Seq<u8>) -> ReaderView {
        if self.kind() == FieldKind::Other {
            self
        } else {
            ReaderView { field: FieldView { data: self.field.data + chunk, ..self.field }, ..self }
        }
    }
}

/// The content of the outcome of taking fields in.
pub open spec fn collected_view(outcome: Result<Ingestor, BadRequest>) -> Result<
    CollectedView,
    BadRequestView,
> {
    match outcome {
        Ok(ingestor) => Ok(ingestor@),
        Err(error) => Err(error@),
    }
}

impl Ingestor {
    /// What the body is taken in for.
    pub closed spec fn intake(&self) -> Intake {
        self.intake
    }

    /// The intake of a body of which nothing has been read.
    pub fn new(intake: Intake) -> (ingestor: Ingestor)
        ensures
            ingestor@ == initial(intake),
            ingestor.intake() == intake,
    {
        let filename = match intake {
            Intake::Submission => String::new(),
            Intake::Upload => String::from_str(UNNAMED_UPLOAD),
        };
        Ingestor { intake, text: None, date: None, image: Vec::new(), filename, has_image: false }
    }

    /// Opens the next field of the body, with the name that it declares and
    /// the file name that it advertises. A field without a name ends the
    /// intake.
    pub fn begin_field(self, name: Option<&str>, filename: Option<&str>) -> (opened: Result<
        FieldReader,
        BadRequest,
    >)
        ensures
            match opened {
                Ok(reader) => name is Some && reader@ == (ReaderView {
                    intake: self.intake(),
                    before: self@,
                    field: FieldView {
                        name: str_view(name),
                        filename: str_view(filename),
                        data: Seq::empty(),
                    },
                }),
                Err(error) => name is None && error@ == BadRequestView::FieldNameMissing,
            },
    {
        match name {
            None => Err(BadRequest::FieldNameMissing),
            Some(name) => {
                let filename = match filename {
                    Some(f) => Some(String::from_str(f)),
                    None => None,
                };
                Ok(
                    FieldReader {
                        ingestor: self,
                        name: String::from_str(name),
                        filename,
                        buffer: Vec::new(),
                    },
                )
            },
        }
    }

    /// Whether an attachment has to be validated and stored: there was an
    /// `image` field, and bytes came with it.
    pub fn has_attachment(&self) -> (wanted: bool)
        ensures
            wanted == wants_storage(self@),
    {
        self.has_image && self.image.len() > 0
    }
}

impl FieldReader {
    /// Takes the next chunk of the field's bytes.
    pub fn push(&mut self, chunk: &[u8])
        ensures
            final(self)@ == old(self)@.pushed(chunk@),
    {
        match classify(self.ingestor.intake, self.name.as_str()) {
            FieldKind::Other => {},
            _ => {
                self.buffer.extend_from_slice(chunk);
                assert(self.buffer@ =~= old(self).buffer@ + chunk@);
            },
        }
    }

    /// Closes the field, which has been read to its end, and takes it in.
    pub fn end(self) -> (outcome: Result<Ingestor, BadRequest>)
        ensures
            collected_view(outcome) == absorb(self@.intake, self@.before, self@.field),
            outcome matches Ok(ingestor) ==> ingestor.intake() == self@.intake,
    {
        let FieldReader { ingestor, name, filename, buffer } = self;
        let mut ingestor = ingestor;
        match classify(ingestor.intake, name.as_str()) {
            FieldKind::Text => match string_from_utf8(buffer) {
                Some(text) => {
                    ingestor.text = Some(text);
                    Ok(ingestor)
                },
                None => Err(BadRequest::InvalidUtf8),
            },
            FieldKind::Date => match string_from_utf8(buffer) {
                Some(text) => {
                    ingestor.date = Some(text);
                    Ok(ingestor)
                },
                None => Err(BadRequest::InvalidDate),
            },
            FieldKind::Image => {
                let mut buffer = buffer;
                ingestor.has_image = true;
                match filename {
                    Some(f) => {
                        ingestor.filename = f;
                    },
                    None => {},
                }
                ingestor.image.append(&mut buffer);
                Ok(ingestor)
            },
            FieldKind::Other => Ok(ingestor),
        }
    }
}

/// Whether what was gathered holds an attachment to validate and store: an
/// `image` field was seen, and it brought bytes.
pub open spec fn wants_storage(state: CollectedView) -> bool {
    state.has_image && state.image.len() > 0
}

/// Where the attachment of a submission was stored.
#[derive(Debug, Clone, PartialEq, Eq)]
pub struct Attachment {
    /// The file's name in the uploads directory.
    pub stored_filename: String,
    /// The path under which clients fetch the file.
    pub url_path: String,
}

/// The mathematical content of an [`Attachment`].
pub struct AttachmentView {
    pub stored_filename: Seq<char>,
    pub url_path: Seq<char>,
}

impl View for Attachment {
    type V = AttachmentView;

    open spec fn view(&self) -> AttachmentView {
        AttachmentView { stored_filename: self.stored_filename@, url_path: self.url_path@ }
    }
}

/// A submission that was taken in whole.
#[derive(Debug, Clone, PartialEq, Eq)]
pub struct ParsedSubmission {
    pub text: String,
    pub date: CalendarDate,
    pub attachment: Option<Attachment>,
}

/// The mathematical content of a [`ParsedSubmission`].
pub struct SubmissionView {
    pub text: Seq<char>,
    pub date: CalendarDate,
    pub attachment: Option<AttachmentView>,
}

impl View for ParsedSubmission {
    type V = SubmissionView;

    open spec fn view(&self) -> SubmissionView {
        SubmissionView {
            text: self.text@,
            date: self.date,
            attachment: match self.attachment {
                Some(a) => Some(a@),
                None => None,
            },
        }
    }
}

/// A submission whose attachment is accepted but not yet written.
#[derive(Debug, Clone, PartialEq, Eq)]
pub struct PendingStore {
    /// The submission as it will stand once the attachment is written.
    pub submission: ParsedSubmission,
    /// The path to write the attachment to.
    pub disk_path: String,
    /// The attachment's bytes.
    pub bytes: Vec<u8>,
}

/// The mathematical content of a [`PendingStore`].
pub struct PendingStoreView {
    pub submission: SubmissionView,
    pub disk_path: Seq<char>,
    pub bytes: Seq<u8>,
}

impl View for PendingStore {
    type V = PendingStoreView;

    open spec fn view(&self) -> PendingStoreView {
        PendingStoreView {
            submission: self.submission@,
            disk_path: self.disk_path@,
            bytes: self.bytes@,
        }
    }
}

/// What the intake of a complete submission asks of the caller.
#[derive(Debug, Clone, PartialEq, Eq)]
pub enum Assembled {
    /// Nothing: the submission has no attachment.
    Complete(ParsedSubmission),
    /// To write the attachment, and to report how that went.
    NeedsStorage(PendingStore),
}

/// The mathematical content of an [`Assembled`].
pub enum AssembledView {
    Complete(SubmissionView),
    NeedsStorage(PendingStoreView),
}

impl AssembledView {
    /// The submission, as it stands or will stand once stored.
    pub open spec fn submission(self) -> SubmissionView {
        match self {
            AssembledView::Complete(submission) => submission,
            AssembledView::NeedsStorage(pending) => pending.submission,
        }
    }
}

impl View for Assembled {
    type V = AssembledView;

    open spec fn view(&self) -> AssembledView {
        match self {
            Assembled::Complete(s) => AssembledView::Complete(s@),
            Assembled::NeedsStorage(p) => AssembledView::NeedsStorage(p@),
        }
    }
}

/// What becomes of a submission once the write of its attachment was
/// attempted: a failed write discards the submission.
pub open spec fn after_write(pending: PendingStoreView, written: Result<(), Seq<char>>) -> Result<
    SubmissionView,
    IngestErrorView,
> {
    match written {
        Ok(()) => Ok(pending.submission),
        Err(diagnostic) => Err(IngestErrorView::InternalError(diagnostic)),
    }
}

/// The content of the final outcome of an intake.
pub open spec fn submission_view(outcome: Result<ParsedSubmission, IngestError>) -> Result<
    SubmissionView,
    IngestErrorView,
> {
    match outcome {
        Ok(submission) => Ok(submission@),
        Err(error) => Err(error@),
    }
}

impl PendingStore {
    /// Concludes the intake once the write to `disk_path` was attempted:
    /// `written` carries the diagnostic of a failed write.
    pub fn stored(self, written: Result<(), String>) -> (outcome: Result<
        ParsedSubmission,
        IngestError,
    >)
        ensures
            submission_view(outcome) == after_write(self@, written_view(written)),
    {
        match written {
            Ok(()) => Ok(self.submission),
            Err(diagnostic) => Err(IngestError::InternalError(diagnostic)),
        }
    }
}

/// The two fields that every submission must hold, or the first that is
/// missing.
pub open spec fn required_fields(state: CollectedView) -> Result<
    (Seq<char>, Seq<char>),
    BadRequestView,
> {
    match state.text {
        None => Err(BadRequestView::MissingField(RequiredField::Text)),
        Some(text) => match state.date {
            None => Err(BadRequestView::MissingField(RequiredField::Date)),
            Some(date) => Ok((text, date)),
        },
    }
}

/// What the gathered fields amount to once the body has ended, given the
/// date that the `date` field was read as, the media category inferred for
/// the attachment's file name, and the identifier to store it under.
///
/// A missing field is reported first, then an unreadable date, then an
/// attachment that is no image. Date, category and identifier matter only
/// where the steps before them succeeded.
pub open spec fn assembled(
    state: CollectedView,
    date: Option<CalendarDate>,
    category: Seq<char>,
    unique_id: Seq<char>,
) -> Result<AssembledView, BadRequestView> {
    match required_fields(state) {
        Err(error) => Err(error),
        Ok((text, _)) => match date {
            None => Err(BadRequestView::InvalidDate),
            Some(date) => if wants_storage(state) {
                match placement(category, unique_id, state.filename) {
                    Err(error) => Err(error),
                    Ok(file) => Ok(
                        AssembledView::NeedsStorage(
                            PendingStoreView {
                                submission: SubmissionView {
                                    text,
                                    date,
                                    attachment: Some(
                                        AttachmentView {
                                            stored_filename: file.name,
                                            url_path: file.url_path,
                                        },
                                    ),
                                },
                                disk_path: file.disk_path,
                                bytes: state.image,
                            },
                        ),
                    ),
                }
            } else {
                Ok(AssembledView::Complete(SubmissionView { text, date, attachment: None }))
            },
        },
    }
}

/// What the gathered fields amount to, the date read and the media category
/// inferred as the service does it.
pub open spec fn submission_of(state: CollectedView, unique_id: Seq<char>) -> Result<
    AssembledView,
    BadRequestView,
> {
    assembled(
        state,
        match state.date {
            Some(text) => parsed_date(text),
            None => None,
        },
        guessed_category(state.filename),
        unique_id,
    )
}

/// The content of the outcome of an assembly.
pub open spec fn assembled_view(outcome: Result<Assembled, BadRequest>) -> Result<
    AssembledView,
    BadRequestView,
> {
    match outcome {
        Ok(assembled) => Ok(assembled@),
        Err(error) => Err(error@),
    }
}

/// Whether `outcome` is what the gathered fields amount to under some fresh
/// identifier. Without an attachment the identifier plays no part.
pub open spec fn finished(
    state: CollectedView,
    outcome: Result<AssembledView, BadRequestView>,
) -> bool {
    if wants_storage(state) {
        exists|unique_id: Seq<char>|
            is_fresh_id(SUBMISSION_PREFIX@, unique_id) && #[trigger] submission_of(state, unique_id)
                == outcome
    } else {
        outcome == submission_of(state, Seq::empty())
    }
}

impl Ingestor {
    /// Assembles the submission from what was gathered, given the date that
    /// the `date` field was read as, the media category inferred for the
    /// attachment's file name, and the identifier to store it under.
    pub fn assemble(self, date: Option<CalendarDate>, category: &str, unique_id: &str) -> (outcome:
        Result<Assembled, BadRequest>)
        ensures
            assembled_view(outcome) == assembled(self@, date, category@, unique_id@),
    {
        let wanted = self.has_attachment();
        let Ingestor { intake: _, text, date: date_text, image, filename, has_image: _ } = self;
        let text = match text {
            Some(text) => text,
            None => {
                return Err(BadRequest::MissingField(RequiredField::Text));
            },
        };
        if date_text.is_none() {
            return Err(BadRequest::MissingField(RequiredField::Date));
        }
        let date = match date {
            Some(date) => date,
            None => {
                return Err(BadRequest::InvalidDate);
            },
        };
        if !wanted {
            return Ok(Assembled::Complete(ParsedSubmission { text, date, attachment: None }));
        }
        match place_attachment(category, unique_id, filename.as_str()) {
            Err(error) => Err(error),
            Ok(file) => {
                let StoredFile { name, disk_path, url_path } = file;
                Ok(
                    Assembled::NeedsStorage(
                        PendingStore {
                            submission: ParsedSubmission {
                                text,
                                date,
                                attachment: Some(Attachment { stored_filename: name, url_path }),
                            },
                            disk_path,
                            bytes: image,
                        },
                    ),
                )
            },
        }
    }

    /// Assembles the submission once the body has ended, storing an
    /// attachment under the given identifier.
    pub fn finish_with_id(self, unique_id: &str) -> (outcome: Result<Assembled, BadRequest>)
        ensures
            assembled_view(outcome) == submission_of(self@, unique_id@),
            outcome matches Ok(assembled) ==> assembled@.submission().date.wf(),
    {
        let date = match &self.date {
            Some(text) => parse_date(text.as_str()),
            None => None,
        };
        let category = if self.has_attachment() {
            media_category(self.filename.as_str())
        } else {
            String::new()
        };
        self.assemble(date, category.as_str(), unique_id)
    }

    /// Assembles the submission once the body has ended. Only now is a
    /// missing field reported. An attachment is stored under a fresh
    /// identifier.
    pub fn finish(self) -> (outcome: Result<Assembled, BadRequest>)
        ensures
            finished(self@, assembled_view(outcome)),
            outcome matches Ok(assembled) ==> assembled@.submission().date.wf(),
    {
        if self.has_attachment() {
            let unique_id = fresh_id(SUBMISSION_PREFIX);
            self.finish_with_id(unique_id.as_str())
        } else {
            self.finish_with_id("")
        }
    }
}

/// Takes the fields of a body in, in order, and returns what was gathered.
pub fn gather(intake: Intake, fields: &Vec<MultipartField>) -> (outcome: Result<
    Ingestor,
    BadRequest,
>)
    ensures
        collected_view(outcome) == collect(intake, initial(intake), field_views(fields@)),
        outcome matches Ok(ingestor) ==> ingestor.intake() == intake,
{
    let mut ingestor = Ingestor::new(intake);
    let ghost views = field_views(fields@);
    let mut i: usize = 0;
    assert(views.skip(0) =~= views);
    while i < fields.len()
        invariant
            i <= fields.len(),
            views == field_views(fields@),
            ingestor.intake() == intake,
            collect(intake, initial(intake), views) == collect(
                intake,
                ingestor@,
                views.skip(i as int),
            ),
        decreases fields.len() - i,
    {
        let ghost rest = views.skip(i as int);
        assert(rest.first() == fields@[i as int]@);
        assert(rest.drop_first() == views.skip(i + 1));
        let field = &fields[i];
        let name = match &field.name {
            Some(name) => Some(name.as_str()),
            None => None,
        };
        let filename = match &field.filename {
            Some(filename) => Some(filename.as_str()),
            None => None,
        };
        let ghost before = ingestor@;
        let mut reader = match ingestor.begin_field(name, filename) {
            Ok(reader) => reader,
            Err(error) => {
                return Err(error);
            },
        };
        reader.push(field.data.as_slice());
        proof {
            lemma_one_chunk(intake, before, field@);
        }
        ingestor = match reader.end() {
            Ok(ingestor) => ingestor,
            Err(error) => {
                return Err(error);
            },
        };
        i += 1;
    }
    Ok(ingestor)
}

/// How a field's bytes are cut into chunks plays no part: two chunks one
/// after the other are taken as their concatenation.
pub proof fn lemma_chunks_concatenate(reader: ReaderView, first: Seq<u8>, second: Seq<u8>)
    ensures
        reader.pushed(first).pushed(second) == reader.pushed(first + second),
{
    assert((reader.field.data + first) + second =~= reader.field.data + (first + second));
}

/// A field read in one chunk is taken in as the field itself. The bytes of
/// a field of no use are dropped on the way, which changes nothing.
pub proof fn lemma_one_chunk(intake: Intake, before: CollectedView, field: FieldView)
    requires
        field.name is Some,
    ensures
        ({
            let opened = ReaderView {
                intake,
                before,
                field: FieldView { data: Seq::empty(), ..field },
            };
            absorb(intake, before, opened.pushed(field.data).field) == absorb(
                intake,
                before,
                field,
            )
        }),
{
    assert(Seq::<u8>::empty() + field.data =~= field.data);
}

/// Takes in a submission whose fields are in memory: gathers the fields in
/// order, then assembles the submission. The first defect ends the intake;
/// a missing field shows only after the last field was taken in.
pub fn ingest(fields: &Vec<MultipartField>) -> (outcome: Result<Assembled, BadRequest>)
    ensures
        outcome matches Ok(assembled) ==> assembled@.submission().date.wf(),
        match collect(Intake::Submission, initial(Intake::Submission), field_views(fields@)) {
            Ok(state) => finished(state, assembled_view(outcome)),
            Err(error) => assembled_view(outcome) == Err::<AssembledView, BadRequestView>(error),
        },
{
    match gather(Intake::Submission, fields) {
        Ok(ingestor) => ingestor.finish(),
        Err(error) => Err(error),
    }
}

/// The error for a body that the reader could not read on, from the
/// reader's diagnostic.
pub fn stream_failure(diagnostic: &str) -> (error: IngestError)
    ensures
        error@ == IngestErrorView::BadRequest(BadRequestView::Malformed(diagnostic@)),
{
    IngestError::BadRequest(BadRequest::Malformed(String::from_str(diagnostic)))
}

/// An upload whose image is accepted but not yet written.
#[derive(Debug, Clone, PartialEq, Eq)]
pub struct PendingUpload {
    /// The answer to the client once the image is written.
    pub response: UploadResponse,
    /// The path to write the image to.
    pub disk_path: String,
    /// The image's bytes.
    pub bytes: Vec<u8>,
}

/// The mathematical content of a [`PendingUpload`].
pub struct PendingUploadView {
    pub image_url: Seq<char>,
    pub disk_path: Seq<char>,
    pub bytes: Seq<u8>,
}

impl View for PendingUpload {
    type V = PendingUploadView;

    open spec fn view(&self) -> PendingUploadView {
        PendingUploadView {
            image_url: self.response.image_url@,
            disk_path: self.disk_path@,
            bytes: self.bytes@,
        }
    }
}

/// What the gathered fields amount to as an upload, given the media
/// category inferred for the image's file name and the identifier to store
/// it under. A body without image bytes is refused.
pub open spec fn upload_assembled(
    state: CollectedView,
    category: Seq<char>,
    unique_id: Seq<char>,
) -> Result<PendingUploadView, BadRequestView> {
    if !wants_storage(state) {
        Err(BadRequestView::NoImage)
    } else {
        match placement(category, unique_id, state.filename) {
            Err(error) => Err(error),
            Ok(file) => Ok(
                PendingUploadView {
                    image_url: file.url_path,
                    disk_path: file.disk_path,
                    bytes: state.image,
                },
            ),
        }
    }
}

/// What the gathered fields amount to as an upload, the media category
/// inferred as the service does it.
pub open spec fn upload_of(state: CollectedView, unique_id: Seq<char>) -> Result<
    PendingUploadView,
    BadRequestView,
> {
    upload_assembled(state, guessed_category(state.filename), unique_id)
}

/// The content of the outcome of assembling an upload.
pub open spec fn upload_view(outcome: Result<PendingUpload, BadRequest>) -> Result<
    PendingUploadView,
    BadRequestView,
> {
    match outcome {
        Ok(pending) => Ok(pending@),
        Err(error) => Err(error@),
    }
}

/// Whether `outcome` is what the gathered fields amount to as an upload
/// under some fresh identifier.
pub open spec fn upload_finished(
    state: CollectedView,
    outcome: Result<PendingUploadView, BadRequestView>,
) -> bool {
    if wants_storage(state) {
        exists|unique_id: Seq<char>|
            is_fresh_id(UPLOAD_PREFIX@, unique_id) && #[trigger] upload_of(state, unique_id)
                == outcome
    } else {
        outcome == Err::<PendingUploadView, BadRequestView>(BadRequestView::NoImage)
    }
}

impl Ingestor {
    /// Assembles the upload from what was gathered, given the media
    /// category inferred for the image's file name and the identifier to
    /// store it under.
    pub fn assemble_upload(self, category: &str, unique_id: &str) -> (outcome: Result<
        PendingUpload,
        BadRequest,
    >)
        ensures
            upload_view(outcome) == upload_assembled(self@, category@, unique_id@),
    {
        if !self.has_attachment() {
            return Err(BadRequest::NoImage);
        }
        match place_attachment(category, unique_id, self.filename.as_str()) {
            Err(error) => Err(error),
            Ok(file) => {
                let StoredFile { name: _, disk_path, url_path } = file;
                Ok(
                    PendingUpload {
                        response: UploadResponse { image_url: url_path },
                        disk_path,
                        bytes: self.image,
                    },
                )
            },
        }
    }

    /// Assembles the upload once the body has ended, storing the image
    /// under the given identifier.
    pub fn finish_upload_with_id(self, unique_id: &str) -> (outcome: Result<
        PendingUpload,
        BadRequest,
    >)
        ensures
            upload_view(outcome) == upload_of(self@, unique_id@),
    {
        let category = media_category(self.filename.as_str());
        self.assemble_upload(category.as_str(), unique_id)
    }

    /// Assembles the upload once the body has ended, storing the image
    /// under a fresh identifier.
    pub fn finish_upload(self) -> (outcome: Result<PendingUpload, BadRequest>)
        ensures
            upload_finished(self@, upload_view(outcome)),
    {
        if self.has_attachment() {
            let unique_id = fresh_id(UPLOAD_PREFIX);
            self.finish_upload_with_id(unique_id.as_str())
        } else {
            Err(BadRequest::NoImage)
        }
    }
}

impl PendingUpload {
    /// Concludes the upload once the write to `disk_path` was attempted:
    /// `written` carries the diagnostic of a failed write.
    pub fn stored(self, written: Result<(), String>) -> (outcome: Result<
        UploadResponse,
        IngestError,
    >)
        ensures
            match written_view(written) {
                Ok(()) => outcome matches Ok(response) && response.image_url@
                    == self@.image_url,
                Err(diagnostic) => outcome matches Err(error) && error@
                    == IngestErrorView::InternalError(diagnostic),
            },
    {
        match written {
            Ok(()) => Ok(self.response),
            Err(diagnostic) => Err(IngestError::InternalError(diagnostic)),
        }
    }
}

/// Takes in an upload whose fields are in memory: gathers the fields in
/// order, of which only `image` fields count, then assembles the upload.
pub fn ingest_upload(fields: &Vec<MultipartField>) -> (outcome: Result<PendingUpload, BadRequest>)
    ensures
        match collect(Intake::Upload, initial(Intake::Upload), field_views(fields@)) {
            Ok(state) => upload_finished(state, upload_view(outcome)),
            Err(error) => upload_view(outcome) == Err::<PendingUploadView, BadRequestView>(error),
        },
{
    match gather(Intake::Upload, fields) {
        Ok(ingestor) => ingestor.finish_upload(),
        Err(error) => Err(error),
    }
}

/// A field of no use to the intake, put anywhere among the fields of a
/// body, changes nothing in what is gathered: it is read and dropped.
pub proof fn lemma_unused_field_is_dropped(
    intake: Intake,
    state: CollectedView,
    fields: Seq<FieldView>,
    position: int,
    unused: FieldView,
)
    requires
        0 <= position <= fields.len(),
        unused.name matches Some(name) && field_kind(intake, name) == FieldKind::Other,
    ensures
        collect(intake, state, fields.insert(position, unused)) == collect(intake, state, fields),
    decreases position,
{
    let longer = fields.insert(position, unused);
    if position == 0 {
        assert(longer.first() == unused);
        assert(longer.drop_first() =~= fields);
    } else {
        assert(longer.first() == fields.first());
        assert(longer.drop_first() =~= fields.drop_first().insert(position - 1, unused));
        match absorb(intake, state, fields.first()) {
            Ok(next) => {
                lemma_unused_field_is_dropped(
                    intake,
                    next,
                    fields.drop_first(),
                    position - 1,
                    unused,
                );
            },
            Err(_) => {},
        }
    }
}

/// A field called `unused` is of no use to either intake.
pub proof fn lemma_unused_is_no_known_field(intake: Intake)
    ensures
        field_kind(intake, "unused"@) == FieldKind::Other,
{
    reveal_strlit("unused");
    reveal_strlit("text");
    reveal_strlit("date");
    reveal_strlit("image");
    assert("unused"@.len() == 6);
    assert("text"@.len() == 4);
    assert("date"@.len() == 4);
    assert("image"@.len() == 5);
}

/// While fields are taken in, no field is ever reported missing: that
/// shows only when the body has ended. A body that ends without its text is
/// then refused for it, however its other fields read.
pub proof fn lemma_missing_field_shows_at_the_end(
    intake: Intake,
    state: CollectedView,
    fields: Seq<FieldView>,
    date: Option<CalendarDate>,
    category: Seq<char>,
    unique_id: Seq<char>,
)
    ensures
        !(collect(intake, state, fields) matches Err(BadRequestView::MissingField(_))),
        state.text is None ==> assembled(state, date, category, unique_id) == Err::<
            AssembledView,
            BadRequestView,
        >(BadRequestView::MissingField(RequiredField::Text)),
        state.text is Some && state.date is None ==> assembled(state, date, category, unique_id)
            == Err::<AssembledView, BadRequestView>(
            BadRequestView::MissingField(RequiredField::Date),
        ),
    decreases fields.len(),
{
    if fields.len() > 0 {
        match absorb(intake, state, fields.first()) {
            Ok(next) => {
                lemma_missing_field_shows_at_the_end(
                    intake,
                    next,
                    fields.drop_first(),
                    date,
                    category,
                    unique_id,
                );
            },
            Err(_) => {},
        }
    }
}

/// Whether an attachment is accepted does not depend on what its bytes
/// are, only on its file name's media category: with other bytes in their
/// place, as long as there are some, the same submission is accepted or
/// refused for the same reason.
pub proof fn lemma_acceptance_ignores_bytes(
    state: CollectedView,
    other_bytes: Seq<u8>,
    date: Option<CalendarDate>,
    category: Seq<char>,
    unique_id: Seq<char>,
)
    requires
        state.image.len() > 0,
        other_bytes.len() > 0,
    ensures
        ({
            let other = CollectedView { image: other_bytes, ..state };
            match assembled(state, date, category, unique_id) {
                Err(reason) => assembled(other, date, category, unique_id) == Err::<
                    AssembledView,
                    BadRequestView,
                >(reason),
                Ok(found) => assembled(other, date, category, unique_id) matches Ok(same)
                    && same.submission() == found.submission(),
            }
        }),
{
}

/// A submission that was assembled is well-formed: its text and date were
/// both present, and it has an attachment exactly if an `image` field
/// brought bytes; the attachment's file name was then that of an image, and
/// it is stored under the identifier, not under the client's name.
pub proof fn lemma_assembled_is_well_formed(
    state: CollectedView,
    date: Option<CalendarDate>,
    category: Seq<char>,
    unique_id: Seq<char>,
)
    requires
        assembled(state, date, category, unique_id) is Ok,
    ensures
        state.text is Some,
        state.date is Some,
        date is Some,
        match assembled(state, date, category, unique_id)->Ok_0 {
            AssembledView::Complete(submission) => {
                &&& !wants_storage(state)
                &&& submission.text == state.text->0
                &&& submission.date == date->0
                &&& submission.attachment is None
            },
            AssembledView::NeedsStorage(pending) => {
                &&& wants_storage(state)
                &&& category == IMAGE_CATEGORY@
                &&& pending.submission.text == state.text->0
                &&& pending.submission.date == date->0
                &&& pending.submission.attachment == Some(
                    AttachmentView {
                        stored_filename: placed(unique_id, state.filename).name,
                        url_path: placed(unique_id, state.filename).url_path,
                    },
                )
                &&& pending.disk_path == placed(unique_id, state.filename).disk_path
                &&& pending.bytes == state.image
            },
        },
{
}

} // verus!
