//! The library's own model of BSON values and documents.
//!
//! A raw log record is an ordered sequence of `(key, value)` fields whose
//! values are themselves BSON values. The decoder only inspects strings,
//! timestamps, embedded documents and arrays; every other value is carried
//! through untouched. Floating-point numbers are carried as their raw bit
//! pattern so that no float arithmetic ever happens here.
use vstd::prelude::*;

verus! {

/// The mathematical model of a BSON value: what a [`Bson`] denotes.
pub enum BsonModel {
    Null,
    Bool(bool),
    Int32(int),
    Int64(int),
    /// A 64-bit floating-point value, as its raw IEEE-754 bit pattern.
    Double(int),
    Str(Seq<char>),
    /// A log sequence time: seconds plus a monotonic increment within the
    /// same second.
    Timestamp { time: int, increment: int },
    /// A wall-clock datetime in milliseconds since the epoch.
    DateTime(int),
    /// A 12-byte object identifier.
    ObjectId(Seq<u8>),
    /// A binary blob with its subtype tag.
    Binary { subtype: int, bytes: Seq<u8> },
    /// A 128-bit decimal, as its 16 raw bytes.
    Decimal128(Seq<u8>),
    /// A regular expression: its pattern and its options.
    Regex { pattern: Seq<char>, options: Seq<char> },
    /// A stored JavaScript fragment.
    JavaScriptCode(Seq<char>),
    /// A symbol: a string under another tag.
    Symbol(Seq<char>),
    Undefined,
    MinKey,
    MaxKey,
    /// An embedded document: ordered fields, earlier occurrences of a key
    /// shadow later ones.
    Doc(Seq<(Seq<char>, BsonModel)>),
    Array(Seq<BsonModel>),
    /// A value of a kind the decoder never inspects.
    Other,
}

/// The model of a document: its fields in order.
pub type DocModel = Seq<(Seq<char>, BsonModel)>;

/// A BSON value, as the decoder sees one.
#[derive(Debug, PartialEq)]
pub enum Bson {
    Null,
    Bool(bool),
    Int32(i32),
    Int64(i64),
    /// A 64-bit floating-point value, carried as its raw IEEE-754 bits.
    Double(u64),
    Str(String),
    /// A log sequence time: seconds plus a monotonic increment within the
    /// same second.
    Timestamp { time: u32, increment: u32 },
    /// A wall-clock datetime in milliseconds since the epoch.
    DateTime(i64),
    /// A 12-byte object identifier.
    ObjectId(Vec<u8>),
    /// A binary blob with its subtype tag.
    Binary { subtype: u8, bytes: Vec<u8> },
    /// A 128-bit decimal, as its 16 raw bytes.
    Decimal128(Vec<u8>),
    /// A regular expression: its pattern and its options.
    Regex { pattern: String, options: String },
    /// A stored JavaScript fragment.
    JavaScriptCode(String),
    /// A symbol: a string under another tag.
    Symbol(String),
    Undefined,
    MinKey,
    MaxKey,
    /// An embedded document.
    Doc(Document),
    Array(Vec<Bson>),
    /// A value of a kind the decoder never inspects, carried opaquely.
    Other,
}

/// A BSON document: an ordered list of named fields. A key may occur more
/// than once; lookups return the first occurrence.
#[derive(Debug, PartialEq)]
pub struct Document {
    pub fields: Vec<(String, Bson)>,
}

/// What a [`Bson`] value denotes.
pub open spec fn bson_model(b: Bson) -> BsonModel
    decreases b,
{
    match b {
        Bson::Null => BsonModel::Null,
        Bson::Bool(x) => BsonModel::Bool(x),
        Bson::Int32(x) => BsonModel::Int32(x as int),
        Bson::Int64(x) => BsonModel::Int64(x as int),
        Bson::Double(bits) => BsonModel::Double(bits as int),
        Bson::Str(s) => BsonModel::Str(s@),
        Bson::Timestamp { time, increment } => BsonModel::Timestamp {
            time: time as int,
            increment: increment as int,
        },
        Bson::DateTime(ms) => BsonModel::DateTime(ms as int),
        Bson::ObjectId(bytes) => BsonModel::ObjectId(bytes@),
        Bson::Binary { subtype, bytes } => BsonModel::Binary {
            subtype: subtype as int,
            bytes: bytes@,
        },
        Bson::Decimal128(bytes) => BsonModel::Decimal128(bytes@),
        Bson::Regex { pattern, options } => BsonModel::Regex {
            pattern: pattern@,
            options: options@,
        },
        Bson::JavaScriptCode(code) => BsonModel::JavaScriptCode(code@),
        Bson::Symbol(s) => BsonModel::Symbol(s@),
        Bson::Undefined => BsonModel::Undefined,
        Bson::MinKey => BsonModel::MinKey,
        Bson::MaxKey => BsonModel::MaxKey,
        Bson::Doc(d) => BsonModel::Doc(doc_fields_model(d.fields@)),
        Bson::Array(a) => BsonModel::Array(array_items_model(a@)),
        Bson::Other => BsonModel::Other,
    }
}

/// What a sequence of named fields denotes.
pub open spec fn doc_fields_model(fields: Seq<(String, Bson)>) -> DocModel
    decreases fields,
{
    Seq::new(
        fields.len(),
        |i: int|
            if 0 <= i < fields.len() {
                (fields[i].0@, bson_model(fields[i].1))
            } else {
                (Seq::<char>::empty(), BsonModel::Null)
            },
    )
}

/// What a sequence of array items denotes.
pub open spec fn array_items_model(items: Seq<Bson>) -> Seq<BsonModel>
    decreases items,
{
    Seq::new(
        items.len(),
        |i: int| if 0 <= i < items.len() {
            bson_model(items[i])
        } else {
            BsonModel::Null
        },
    )
}

impl View for Bson {
    type V = BsonModel;

    open spec fn view(&self) -> BsonModel {
        bson_model(*self)
    }
}

impl View for Document {
    type V = DocModel;

    open spec fn view(&self) -> DocModel {
        doc_fields_model(self.fields@)
    }
}

impl Clone for Bson {
    /// A deep copy that denotes the same value.
    #[verifier::loop_isolation(false)]
    fn clone(&self) -> (res: Bson)
        ensures
            res@ == self@,
        decreases self@,
    {
        match self {
            Bson::Null => Bson::Null,
            Bson::Bool(x) => Bson::Bool(*x),
            Bson::Int32(x) => Bson::Int32(*x),
            Bson::Int64(x) => Bson::Int64(*x),
            Bson::Double(bits) => Bson::Double(*bits),
            Bson::Str(s) => Bson::Str(s.clone()),
            Bson::Timestamp { time, increment } => Bson::Timestamp {
                time: *time,
                increment: *increment,
            },
            Bson::DateTime(ms) => Bson::DateTime(*ms),
            Bson::ObjectId(bytes) => {
                let copy = bytes.clone();
                proof {
                    assert(copy@ =~= bytes@);
                }
                Bson::ObjectId(copy)
            },
            Bson::Binary { subtype, bytes } => {
                let copy = bytes.clone();
                proof {
                    assert(copy@ =~= bytes@);
                }
                Bson::Binary { subtype: *subtype, bytes: copy }
            },
            Bson::Decimal128(bytes) => {
                let copy = bytes.clone();
                proof {
                    assert(copy@ =~= bytes@);
                }
                Bson::Decimal128(copy)
            },
            Bson::Regex { pattern, options } => Bson::Regex {
                pattern: pattern.clone(),
                options: options.clone(),
            },
            Bson::JavaScriptCode(code) => Bson::JavaScriptCode(code.clone()),
            Bson::Symbol(s) => Bson::Symbol(s.clone()),
            Bson::Undefined => Bson::Undefined,
            Bson::MinKey => Bson::MinKey,
            Bson::MaxKey => Bson::MaxKey,
            Bson::Doc(d) => {
                proof {
                    let m = self@;
                    assert(m == BsonModel::Doc(doc_fields_model(d.fields@)));
                    assert(decreases_to!(m => m->Doc_0));
                }
                Bson::Doc(d.clone())
            },
            Bson::Array(a) => {
                let n = a.len();
                let mut items: Vec<Bson> = Vec::new();
                let mut i: usize = 0;
                while i < n
                    invariant
                        n == a.len(),
                        i <= n,
                        items@.len() == i,
                        forall|j: int|
                            0 <= j < i ==> bson_model(#[trigger] items@[j]) == bson_model(a@[j]),
                    decreases n - i,
                {
                    proof {
                        let m = self@;
                        assert(m == BsonModel::Array(array_items_model(a@)));
                        assert(decreases_to!(m => m->Array_0));
                        assert(m->Array_0[i as int] == bson_model(a@[i as int]));
                        assert(decreases_to!(m->Array_0 => m->Array_0[i as int]));
                        assert(decreases_to!(m => a@[i as int]@));
                    }
                    let item = a[i].clone();
                    items.push(item);
                    i = i + 1;
                }
                proof {
                    assert(array_items_model(items@) =~= array_items_model(a@));
                }
                Bson::Array(items)
            },
            Bson::Other => Bson::Other,
        }
    }
}

impl Clone for Document {
    /// A deep copy that denotes the same document.
    #[verifier::loop_isolation(false)]
    fn clone(&self) -> (res: Document)
        ensures
            res@ == self@,
        decreases self@,
    {
        let n = self.fields.len();
        let mut fields: Vec<(String, Bson)> = Vec::new();
        let mut i: usize = 0;
        while i < n
            invariant
                n == self.fields.len(),
                i <= n,
                fields@.len() == i,
                forall|j: int|
                    0 <= j < i ==> (#[trigger] fields@[j]).0@ == self.fields@[j].0@ && bson_model(
                        fields@[j].1,
                    ) == bson_model(self.fields@[j].1),
            decreases n - i,
        {
            let pair = &self.fields[i];
            let key = pair.0.clone();
            proof {
                let m = self@;
                assert(m[i as int] == (pair.0@, bson_model(pair.1)));
                assert(decreases_to!(m => m[i as int]));
                assert(decreases_to!(m[i as int] => m[i as int].1));
                assert(decreases_to!(m => pair.1@));
            }
            let value = pair.1.clone();
            fields.push((key, value));
            i = i + 1;
        }
        let res = Document { fields };
        proof {
            assert(res@ =~= self@);
        }
        res
    }
}

/// How a field access can fail: the key is absent, or its value has the
/// wrong kind.
#[derive(Clone, Copy, Debug, PartialEq, Eq, Structural)]
pub enum FieldErrorKind {
    NotPresent,
    UnexpectedType,
}

/// The value of the first field named `key`, if any.
pub open spec fn doc_get_model(d: DocModel, key: Seq<char>) -> Option<BsonModel>
    decreases d.len(),
{
    if d.len() == 0 {
        None
    } else if d[0].0 == key {
        Some(d[0].1)
    } else {
        doc_get_model(d.drop_first(), key)
    }
}

/// The string value of the field named `key`.
pub open spec fn str_field(d: DocModel, key: Seq<char>) -> Result<Seq<char>, FieldErrorKind> {
    match doc_get_model(d, key) {
        Option::None => Err(FieldErrorKind::NotPresent),
        Option::Some(BsonModel::Str(s)) => Ok(s),
        Option::Some(_) => Err(FieldErrorKind::UnexpectedType),
    }
}

/// The timestamp value `(time, increment)` of the field named `key`.
pub open spec fn timestamp_field(d: DocModel, key: Seq<char>) -> Result<
    (int, int),
    FieldErrorKind,
> {
    match doc_get_model(d, key) {
        Option::None => Err(FieldErrorKind::NotPresent),
        Option::Some(BsonModel::Timestamp { time, increment }) => Ok((time, increment)),
        Option::Some(_) => Err(FieldErrorKind::UnexpectedType),
    }
}

/// The embedded-document value of the field named `key`.
pub open spec fn doc_field(d: DocModel, key: Seq<char>) -> Result<DocModel, FieldErrorKind> {
    match doc_get_model(d, key) {
        Option::None => Err(FieldErrorKind::NotPresent),
        Option::Some(BsonModel::Doc(sub)) => Ok(sub),
        Option::Some(_) => Err(FieldErrorKind::UnexpectedType),
    }
}

/// The array value of the field named `key`.
pub open spec fn array_field(d: DocModel, key: Seq<char>) -> Result<
    Seq<BsonModel>,
    FieldErrorKind,
> {
    match doc_get_model(d, key) {
        Option::None => Err(FieldErrorKind::NotPresent),
        Option::Some(BsonModel::Array(items)) => Ok(items),
        Option::Some(_) => Err(FieldErrorKind::UnexpectedType),
    }
}

/// A key that no field before `i` carries is not found before `i`.
proof fn lemma_get_skips_other_keys(d: DocModel, key: Seq<char>, i: int)
    requires
        0 <= i <= d.len(),
        forall|j: int| 0 <= j < i ==> (#[trigger] d[j]).0 != key,
    ensures
        doc_get_model(d, key) == doc_get_model(d.skip(i), key),
    decreases i,
{
    if i == 0 {
        assert(d.skip(0) =~= d);
    } else {
        assert(d.drop_first() =~= d.skip(1));
        assert(forall|j: int| 0 <= j < i - 1 ==> (#[trigger] d.skip(1)[j]).0 != key);
        lemma_get_skips_other_keys(d.skip(1), key, i - 1);
        assert(d.skip(1).skip(i - 1) =~= d.skip(i));
    }
}

/// Looking a key up after replacing the field at `i`, whose key it is not,
/// gives the same result as before.
proof fn lemma_get_after_update_other_key(d: DocModel, i: int, p: (Seq<char>, BsonModel), k: Seq<char>)
    requires
        0 <= i < d.len(),
        d[i].0 == p.0,
        k != p.0,
    ensures
        doc_get_model(d.update(i, p), k) == doc_get_model(d, k),
    decreases i,
{
    let d2 = d.update(i, p);
    if i == 0 {
        assert(d2.drop_first() =~= d.drop_first());
    } else {
        if d[0].0 == k {
        } else {
            assert(d2.drop_first() =~= d.drop_first().update(i - 1, p));
            lemma_get_after_update_other_key(d.drop_first(), i - 1, p, k);
        }
    }
}

/// Looking a key up after appending a field: an existing binding still wins;
/// otherwise the appended field is found exactly when its key matches.
proof fn lemma_get_after_push(d: DocModel, p: (Seq<char>, BsonModel), k: Seq<char>)
    ensures
        doc_get_model(d.push(p), k) == (if doc_get_model(d, k) is Some {
            doc_get_model(d, k)
        } else if p.0 == k {
            Some(p.1)
        } else {
            None
        }),
    decreases d.len(),
{
    let d2 = d.push(p);
    if d.len() == 0 {
        assert(d2[0] == p);
        if p.0 != k {
            assert(d2.drop_first() =~= Seq::<(Seq<char>, BsonModel)>::empty());
        }
    } else {
        assert(d2[0] == d[0]);
        if d[0].0 != k {
            assert(d2.drop_first() =~= d.drop_first().push(p));
            lemma_get_after_push(d.drop_first(), p, k);
        }
    }
}

impl Document {
    /// An empty document.
    pub fn new() -> (r: Document)
        ensures
            r@ == Seq::<(Seq<char>, BsonModel)>::empty(),
    {
        let r = Document { fields: Vec::new() };
        proof {
            assert(r@ =~= Seq::<(Seq<char>, BsonModel)>::empty());
        }
        r
    }

    /// Binds `key` to `value`: replaces the first field with that key, or
    /// appends one. Every other key keeps its binding.
    #[verifier::loop_isolation(false)]
    pub fn insert(&mut self, key: String, value: Bson)
        ensures
            doc_get_model(final(self)@, key@) == Some(bson_model(value)),
            forall|k: Seq<char>|
                k != key@ ==> #[trigger] doc_get_model(final(self)@, k) == doc_get_model(
                    old(self)@,
                    k,
                ),
            old(self)@.len() <= final(self)@.len() <= old(self)@.len() + 1,
            doc_get_model(old(self)@, key@) is None ==> final(self)@ == old(self)@.push(
                (key@, bson_model(value)),
            ),
    {
        let ghost gkey = key@;
        let ghost gval = bson_model(value);
        let n = self.fields.len();
        let mut i: usize = 0;
        while i < n
            invariant
                i <= n,
                *self == *old(self),
                forall|j: int| 0 <= j < i ==> (#[trigger] self@[j]).0 != gkey,
            decreases n - i,
        {
            proof {
                assert(self@[i as int].0 == self.fields@[i as int].0@);
            }
            if self.fields[i].0 == key {
                self.fields.set(i, (key, value));
                proof {
                    let d = old(self)@;
                    let d2 = self@;
                    lemma_get_skips_other_keys(d, gkey, i as int);
                    assert(d.skip(i as int)[0] == d[i as int]);
                    assert(d2 =~= d.update(i as int, (gkey, gval)));
                    lemma_get_skips_other_keys(d2, gkey, i as int);
                    assert(d2.skip(i as int)[0] == (gkey, gval));
                    assert forall|k: Seq<char>| k != gkey implies #[trigger] doc_get_model(
                        d2,
                        k,
                    ) == doc_get_model(d, k) by {
                        lemma_get_after_update_other_key(d, i as int, (gkey, gval), k);
                    }
                }
                return ;
            }
            i = i + 1;
        }
        self.fields.push((key, value));
        proof {
            let d = old(self)@;
            let d2 = self@;
            assert(d2 =~= d.push((gkey, gval)));
            lemma_get_skips_other_keys(d, gkey, d.len() as int);
            assert(d.skip(d.len() as int) =~= Seq::<(Seq<char>, BsonModel)>::empty());
            lemma_get_after_push(d, (gkey, gval), gkey);
            assert forall|k: Seq<char>| k != gkey implies #[trigger] doc_get_model(d2, k)
                == doc_get_model(d, k) by {
                lemma_get_after_push(d, (gkey, gval), k);
            }
        }
    }

    /// The value of the first field named `key`, if any.
    pub fn get<'a>(&'a self, key: &String) -> (r: Option<&'a Bson>)
        ensures
            match r {
                Some(v) => doc_get_model(self@, key@) == Some(v@),
                None => doc_get_model(self@, key@) is None,
            },
    {
        let n = self.fields.len();
        let mut i: usize = 0;
        proof {
            assert(self@.skip(0) =~= self@);
        }
        while i < n
            invariant
                n == self.fields.len(),
                i <= n,
                doc_get_model(self@, key@) == doc_get_model(self@.skip(i as int), key@),
            decreases n - i,
        {
            let pair = &self.fields[i];
            proof {
                assert(self@[i as int] == (pair.0@, bson_model(pair.1)));
                assert(self@.skip(i as int)[0] == self@[i as int]);
            }
            if pair.0 == *key {
                return Some(&pair.1);
            }
            proof {
                assert(self@.skip(i as int).drop_first() =~= self@.skip(i as int + 1));
            }
            i = i + 1;
        }
        proof {
            assert(self@.skip(n as int) =~= Seq::<(Seq<char>, BsonModel)>::empty());
        }
        None
    }

    /// The string value of the field named `key`.
    pub fn get_str<'a>(&'a self, key: &String) -> (r: Result<&'a String, FieldErrorKind>)
        ensures
            match r {
                Ok(s) => str_field(self@, key@) == Ok::<Seq<char>, FieldErrorKind>(s@),
                Err(k) => str_field(self@, key@) == Err::<Seq<char>, FieldErrorKind>(k),
            },
    {
        match self.get(key) {
            Option::None => Err(FieldErrorKind::NotPresent),
            Option::Some(Bson::Str(s)) => Ok(s),
            Option::Some(_) => Err(FieldErrorKind::UnexpectedType),
        }
    }

    /// The timestamp value of the field named `key`.
    pub fn get_timestamp(&self, key: &String) -> (r: Result<(u32, u32), FieldErrorKind>)
        ensures
            match r {
                Ok(t) => timestamp_field(self@, key@) == Ok::<(int, int), FieldErrorKind>(
                    (t.0 as int, t.1 as int),
                ),
                Err(k) => timestamp_field(self@, key@) == Err::<(int, int), FieldErrorKind>(k),
            },
    {
        match self.get(key) {
            Option::None => Err(FieldErrorKind::NotPresent),
            Option::Some(Bson::Timestamp { time, increment }) => Ok((*time, *increment)),
            Option::Some(_) => Err(FieldErrorKind::UnexpectedType),
        }
    }

    /// The embedded-document value of the field named `key`.
    pub fn get_document<'a>(&'a self, key: &String) -> (r: Result<&'a Document, FieldErrorKind>)
        ensures
            match r {
                Ok(d) => doc_field(self@, key@) == Ok::<DocModel, FieldErrorKind>(d@),
                Err(k) => doc_field(self@, key@) == Err::<DocModel, FieldErrorKind>(k),
            },
    {
        match self.get(key) {
            Option::None => Err(FieldErrorKind::NotPresent),
            Option::Some(Bson::Doc(d)) => Ok(d),
            Option::Some(_) => Err(FieldErrorKind::UnexpectedType),
        }
    }

    /// The array value of the field named `key`.
    pub fn get_array<'a>(&'a self, key: &String) -> (r: Result<&'a Vec<Bson>, FieldErrorKind>)
        ensures
            match r {
                Ok(a) => array_field(self@, key@) == Ok::<Seq<BsonModel>, FieldErrorKind>(
                    array_items_model(a@),
                ),
                Err(k) => array_field(self@, key@) == Err::<Seq<BsonModel>, FieldErrorKind>(k),
            },
    {
        match self.get(key) {
            Option::None => Err(FieldErrorKind::NotPresent),
            Option::Some(Bson::Array(a)) => Ok(a),
            Option::Some(_) => Err(FieldErrorKind::UnexpectedType),
        }
    }
}

} // verus!
