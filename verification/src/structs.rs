//! The typed owned tree of Matroska structural elements: one record per
//! schema element of structural type, with its ordered field enumeration and
//! its writers.

use vstd::prelude::*;

use crate::errors::MatroskaError;
use crate::ids::EbmlId;
use crate::model::{body_ok_rec, cat_bytes, el_bytes, el_ok, lemma_body_ok_forall, lemma_cat_snoc,
    models_of, node_frame_bytes, sort_fields, sort_fields_spec, EbmlField, FieldModel};
use crate::{Ebml, ElementSize, MkvDate};

verus! {

broadcast use {vstd::prelude::Seq::lemma_push_map_commute, vstd::prelude::Seq::lemma_map_take_succ};

/// The `EbmlHeader` structural element.
#[derive(Debug)]
pub struct EbmlHeader {
    pub size: u64,
    pub version: Ebml<u64>,
    pub read_version: Ebml<u64>,
    pub doc_type: Ebml<String>,
    pub doc_type_version: Ebml<u64>,
    pub doc_type_read_version: Ebml<u64>,
    pub doc_type_extension: Option<Ebml<DocTypeExtension>>,
    pub doc_type_extension_name: Option<Ebml<String>>,
    pub doc_type_extension_version: Option<Ebml<u64>>,
    pub ebml_max_id_length: Ebml<u64>,
    pub ebml_max_size_length: Ebml<u64>,
}

impl EbmlHeader {
    /// The models of the children, in declaration order.
    #[verifier::opaque]
    pub open spec fn raw_model(self) -> Seq<FieldModel>
    {
        seq![FieldModel::UInt { id: 0x4286, idx: self.version.index, key: self.version.id, v: *self.version.v }]
            + seq![FieldModel::UInt { id: 0x42F7, idx: self.read_version.index, key: self.read_version.id, v: *self.read_version.v }]
            + seq![FieldModel::Text { id: 0x4282, idx: self.doc_type.index, key: self.doc_type.id, s: (*self.doc_type.v)@ }]
            + seq![FieldModel::UInt { id: 0x4287, idx: self.doc_type_version.index, key: self.doc_type_version.id, v: *self.doc_type_version.v }]
            + seq![FieldModel::UInt { id: 0x4285, idx: self.doc_type_read_version.index, key: self.doc_type_read_version.id, v: *self.doc_type_read_version.v }]
            + (match self.doc_type_extension { Some(e) => seq![FieldModel::Node { id: 0x4281, idx: e.index, key: e.id, children: (*e.v).model() }], None => Seq::empty() })
            + (match self.doc_type_extension_name { Some(e) => seq![FieldModel::Text { id: 0x4283, idx: e.index, key: e.id, s: (*e.v)@ }], None => Seq::empty() })
            + (match self.doc_type_extension_version { Some(e) => seq![FieldModel::UInt { id: 0x4284, idx: e.index, key: e.id, v: *e.v }], None => Seq::empty() })
            + seq![FieldModel::UInt { id: 0x42F2, idx: self.ebml_max_id_length.index, key: self.ebml_max_id_length.id, v: *self.ebml_max_id_length.v }]
            + seq![FieldModel::UInt { id: 0x42F3, idx: self.ebml_max_size_length.index, key: self.ebml_max_size_length.id, v: *self.ebml_max_size_length.v }]
    }

    /// The children in emission order.
    #[verifier::opaque]
    pub open spec fn model(self) -> Seq<FieldModel>
    {
        sort_fields_spec(self.raw_model())
    }

    /// Append the `version` child values to a field run.
    #[verifier::loop_isolation(false)]
    fn push_version(&self, v: &mut Vec<EbmlHeaderFields>)
        ensures
            models_of::<EbmlHeaderFields>(final(v)@) == models_of::<EbmlHeaderFields>(old(v)@) + seq![FieldModel::UInt { id: 0x4286, idx: self.version.index, key: self.version.id, v: *self.version.v }],
    {
        let ghost prevv = v@;
        v.push(EbmlHeaderFields::Version(crate::dup_ebml_copy(&self.version)));
        proof {
            assert(models_of::<EbmlHeaderFields>(v@) =~= models_of::<EbmlHeaderFields>(prevv).push(v@.last().model()));
            assert(models_of::<EbmlHeaderFields>(prevv).push(v@.last().model()) =~= models_of::<EbmlHeaderFields>(prevv) + seq![FieldModel::UInt { id: 0x4286, idx: self.version.index, key: self.version.id, v: *self.version.v }]);
        }
    }

    /// Append the `read_version` child values to a field run.
    #[verifier::loop_isolation(false)]
    fn push_read_version(&self, v: &mut Vec<EbmlHeaderFields>)
        ensures
            models_of::<EbmlHeaderFields>(final(v)@) == models_of::<EbmlHeaderFields>(old(v)@) + seq![FieldModel::UInt { id: 0x42F7, idx: self.read_version.index, key: self.read_version.id, v: *self.read_version.v }],
    {
        let ghost prevv = v@;
        v.push(EbmlHeaderFields::ReadVersion(crate::dup_ebml_copy(&self.read_version)));
        proof {
            assert(models_of::<EbmlHeaderFields>(v@) =~= models_of::<EbmlHeaderFields>(prevv).push(v@.last().model()));
            assert(models_of::<EbmlHeaderFields>(prevv).push(v@.last().model()) =~= models_of::<EbmlHeaderFields>(prevv) + seq![FieldModel::UInt { id: 0x42F7, idx: self.read_version.index, key: self.read_version.id, v: *self.read_version.v }]);
        }
    }

    /// Append the `doc_type` child values to a field run.
    #[verifier::loop_isolation(false)]
    fn push_doc_type(&self, v: &mut Vec<EbmlHeaderFields>)
        ensures
            models_of::<EbmlHeaderFields>(final(v)@) == models_of::<EbmlHeaderFields>(old(v)@) + seq![FieldModel::Text { id: 0x4282, idx: self.doc_type.index, key: self.doc_type.id, s: (*self.doc_type.v)@ }],
    {
        let ghost prevv = v@;
        v.push(EbmlHeaderFields::DocType(crate::dup_ebml_string(&self.doc_type)));
        proof {
            assert(models_of::<EbmlHeaderFields>(v@) =~= models_of::<EbmlHeaderFields>(prevv).push(v@.last().model()));
            assert(models_of::<EbmlHeaderFields>(prevv).push(v@.last().model()) =~= models_of::<EbmlHeaderFields>(prevv) + seq![FieldModel::Text { id: 0x4282, idx: self.doc_type.index, key: self.doc_type.id, s: (*self.doc_type.v)@ }]);
        }
    }

    /// Append the `doc_type_version` child values to a field run.
    #[verifier::loop_isolation(false)]
    fn push_doc_type_version(&self, v: &mut Vec<EbmlHeaderFields>)
        ensures
            models_of::<EbmlHeaderFields>(final(v)@) == models_of::<EbmlHeaderFields>(old(v)@) + seq![FieldModel::UInt { id: 0x4287, idx: self.doc_type_version.index, key: self.doc_type_version.id, v: *self.doc_type_version.v }],
    {
        let ghost prevv = v@;
        v.push(EbmlHeaderFields::DocTypeVersion(crate::dup_ebml_copy(&self.doc_type_version)));
        proof {
            assert(models_of::<EbmlHeaderFields>(v@) =~= models_of::<EbmlHeaderFields>(prevv).push(v@.last().model()));
            assert(models_of::<EbmlHeaderFields>(prevv).push(v@.last().model()) =~= models_of::<EbmlHeaderFields>(prevv) + seq![FieldModel::UInt { id: 0x4287, idx: self.doc_type_version.index, key: self.doc_type_version.id, v: *self.doc_type_version.v }]);
        }
    }

    /// Append the `doc_type_read_version` child values to a field run.
    #[verifier::loop_isolation(false)]
    fn push_doc_type_read_version(&self, v: &mut Vec<EbmlHeaderFields>)
        ensures
            models_of::<EbmlHeaderFields>(final(v)@) == models_of::<EbmlHeaderFields>(old(v)@) + seq![FieldModel::UInt { id: 0x4285, idx: self.doc_type_read_version.index, key: self.doc_type_read_version.id, v: *self.doc_type_read_version.v }],
    {
        let ghost prevv = v@;
        v.push(EbmlHeaderFields::DocTypeReadVersion(crate::dup_ebml_copy(&self.doc_type_read_version)));
        proof {
            assert(models_of::<EbmlHeaderFields>(v@) =~= models_of::<EbmlHeaderFields>(prevv).push(v@.last().model()));
            assert(models_of::<EbmlHeaderFields>(prevv).push(v@.last().model()) =~= models_of::<EbmlHeaderFields>(prevv) + seq![FieldModel::UInt { id: 0x4285, idx: self.doc_type_read_version.index, key: self.doc_type_read_version.id, v: *self.doc_type_read_version.v }]);
        }
    }

    /// Append the `doc_type_extension` child values to a field run.
    #[verifier::loop_isolation(false)]
    fn push_doc_type_extension(&self, v: &mut Vec<EbmlHeaderFields>)
        ensures
            models_of::<EbmlHeaderFields>(final(v)@) == models_of::<EbmlHeaderFields>(old(v)@) + (match &self.doc_type_extension { Some(e) => seq![FieldModel::Node { id: 0x4281, idx: e.index, key: e.id, children: (*e.v).model() }], None => Seq::empty() }),
    {
        match &self.doc_type_extension {
            Some(e) => {
                let d = (&*e.v).duplicate();
                proof {
                    reveal(DocTypeExtension::model);
                    assert(d.model() == (*e.v).model());
                }
                let ghost prevv = v@;
                v.push(EbmlHeaderFields::DocTypeExtension(Ebml { index: e.index, v: Box::new(d), id: e.id }));
                proof {
                    assert(models_of::<EbmlHeaderFields>(v@) =~= models_of::<EbmlHeaderFields>(prevv).push(v@.last().model()));
                    assert(models_of::<EbmlHeaderFields>(prevv).push(v@.last().model()) =~= models_of::<EbmlHeaderFields>(prevv) + (match &self.doc_type_extension { Some(e) => seq![FieldModel::Node { id: 0x4281, idx: e.index, key: e.id, children: (*e.v).model() }], None => Seq::empty() }));
                }
            },
            None => {
                proof {
                    assert(models_of::<EbmlHeaderFields>(v@) =~= models_of::<EbmlHeaderFields>(v@) + (match &self.doc_type_extension { Some(e) => seq![FieldModel::Node { id: 0x4281, idx: e.index, key: e.id, children: (*e.v).model() }], None => Seq::empty() }));
                }
            },
        }
    }

    /// Append the `doc_type_extension_name` child values to a field run.
    #[verifier::loop_isolation(false)]
    fn push_doc_type_extension_name(&self, v: &mut Vec<EbmlHeaderFields>)
        ensures
            models_of::<EbmlHeaderFields>(final(v)@) == models_of::<EbmlHeaderFields>(old(v)@) + (match &self.doc_type_extension_name { Some(e) => seq![FieldModel::Text { id: 0x4283, idx: e.index, key: e.id, s: (*e.v)@ }], None => Seq::empty() }),
    {
        match &self.doc_type_extension_name {
            Some(e) => {
                let ghost prevv = v@;
                v.push(EbmlHeaderFields::DocTypeExtensionName(crate::dup_ebml_string(e)));
                proof {
                    assert(models_of::<EbmlHeaderFields>(v@) =~= models_of::<EbmlHeaderFields>(prevv).push(v@.last().model()));
                    assert(models_of::<EbmlHeaderFields>(prevv).push(v@.last().model()) =~= models_of::<EbmlHeaderFields>(prevv) + (match &self.doc_type_extension_name { Some(e) => seq![FieldModel::Text { id: 0x4283, idx: e.index, key: e.id, s: (*e.v)@ }], None => Seq::empty() }));
                }
            },
            None => {
                proof {
                    assert(models_of::<EbmlHeaderFields>(v@) =~= models_of::<EbmlHeaderFields>(v@) + (match &self.doc_type_extension_name { Some(e) => seq![FieldModel::Text { id: 0x4283, idx: e.index, key: e.id, s: (*e.v)@ }], None => Seq::empty() }));
                }
            },
        }
    }

    /// Append the `doc_type_extension_version` child values to a field run.
    #[verifier::loop_isolation(false)]
    fn push_doc_type_extension_version(&self, v: &mut Vec<EbmlHeaderFields>)
        ensures
            models_of::<EbmlHeaderFields>(final(v)@) == models_of::<EbmlHeaderFields>(old(v)@) + (match &self.doc_type_extension_version { Some(e) => seq![FieldModel::UInt { id: 0x4284, idx: e.index, key: e.id, v: *e.v }], None => Seq::empty() }),
    {
        match &self.doc_type_extension_version {
            Some(e) => {
                let ghost prevv = v@;
                v.push(EbmlHeaderFields::DocTypeExtensionVersion(crate::dup_ebml_copy(e)));
                proof {
                    assert(models_of::<EbmlHeaderFields>(v@) =~= models_of::<EbmlHeaderFields>(prevv).push(v@.last().model()));
                    assert(models_of::<EbmlHeaderFields>(prevv).push(v@.last().model()) =~= models_of::<EbmlHeaderFields>(prevv) + (match &self.doc_type_extension_version { Some(e) => seq![FieldModel::UInt { id: 0x4284, idx: e.index, key: e.id, v: *e.v }], None => Seq::empty() }));
                }
            },
            None => {
                proof {
                    assert(models_of::<EbmlHeaderFields>(v@) =~= models_of::<EbmlHeaderFields>(v@) + (match &self.doc_type_extension_version { Some(e) => seq![FieldModel::UInt { id: 0x4284, idx: e.index, key: e.id, v: *e.v }], None => Seq::empty() }));
                }
            },
        }
    }

    /// Append the `ebml_max_id_length` child values to a field run.
    #[verifier::loop_isolation(false)]
    fn push_ebml_max_id_length(&self, v: &mut Vec<EbmlHeaderFields>)
        ensures
            models_of::<EbmlHeaderFields>(final(v)@) == models_of::<EbmlHeaderFields>(old(v)@) + seq![FieldModel::UInt { id: 0x42F2, idx: self.ebml_max_id_length.index, key: self.ebml_max_id_length.id, v: *self.ebml_max_id_length.v }],
    {
        let ghost prevv = v@;
        v.push(EbmlHeaderFields::EbmlMaxIdLength(crate::dup_ebml_copy(&self.ebml_max_id_length)));
        proof {
            assert(models_of::<EbmlHeaderFields>(v@) =~= models_of::<EbmlHeaderFields>(prevv).push(v@.last().model()));
            assert(models_of::<EbmlHeaderFields>(prevv).push(v@.last().model()) =~= models_of::<EbmlHeaderFields>(prevv) + seq![FieldModel::UInt { id: 0x42F2, idx: self.ebml_max_id_length.index, key: self.ebml_max_id_length.id, v: *self.ebml_max_id_length.v }]);
        }
    }

    /// Append the `ebml_max_size_length` child values to a field run.
    #[verifier::loop_isolation(false)]
    fn push_ebml_max_size_length(&self, v: &mut Vec<EbmlHeaderFields>)
        ensures
            models_of::<EbmlHeaderFields>(final(v)@) == models_of::<EbmlHeaderFields>(old(v)@) + seq![FieldModel::UInt { id: 0x42F3, idx: self.ebml_max_size_length.index, key: self.ebml_max_size_length.id, v: *self.ebml_max_size_length.v }],
    {
        let ghost prevv = v@;
        v.push(EbmlHeaderFields::EbmlMaxSizeLength(crate::dup_ebml_copy(&self.ebml_max_size_length)));
        proof {
            assert(models_of::<EbmlHeaderFields>(v@) =~= models_of::<EbmlHeaderFields>(prevv).push(v@.last().model()));
            assert(models_of::<EbmlHeaderFields>(prevv).push(v@.last().model()) =~= models_of::<EbmlHeaderFields>(prevv) + seq![FieldModel::UInt { id: 0x42F3, idx: self.ebml_max_size_length.index, key: self.ebml_max_size_length.id, v: *self.ebml_max_size_length.v }]);
        }
    }

    /// The present children, each paired with its ID, in emission order.
    #[verifier::rlimit(100)]
    #[verifier::spinoff_prover]
    pub fn elements(&self) -> (r: Vec<EbmlHeaderFields>)
        ensures
            models_of::<EbmlHeaderFields>(r@) == self.model(),
    {
        let mut v: Vec<EbmlHeaderFields> = Vec::new();
        proof {
            assert(models_of::<EbmlHeaderFields>(v@) =~= Seq::<FieldModel>::empty());
        }
        self.push_version(&mut v);
        self.push_read_version(&mut v);
        self.push_doc_type(&mut v);
        self.push_doc_type_version(&mut v);
        self.push_doc_type_read_version(&mut v);
        self.push_doc_type_extension(&mut v);
        self.push_doc_type_extension_name(&mut v);
        self.push_doc_type_extension_version(&mut v);
        self.push_ebml_max_id_length(&mut v);
        self.push_ebml_max_size_length(&mut v);
        proof {
            reveal(EbmlHeader::raw_model);
            reveal(EbmlHeader::model);
            assert(Seq::<FieldModel>::empty() + seq![FieldModel::UInt { id: 0x4286, idx: self.version.index, key: self.version.id, v: *self.version.v }] =~= seq![FieldModel::UInt { id: 0x4286, idx: self.version.index, key: self.version.id, v: *self.version.v }]);
            assert(models_of::<EbmlHeaderFields>(v@) == self.raw_model());
        }
        sort_fields(v)
    }

    /// A deep copy of the `version` slot.
    #[verifier::loop_isolation(false)]
    fn dup_version(&self) -> (r: Ebml<u64>)
        ensures
            seq![FieldModel::UInt { id: 0x4286, idx: r.index, key: r.id, v: *r.v }] == seq![FieldModel::UInt { id: 0x4286, idx: self.version.index, key: self.version.id, v: *self.version.v }],
    {
        crate::dup_ebml_copy(&self.version)
    }

    /// A deep copy of the `read_version` slot.
    #[verifier::loop_isolation(false)]
    fn dup_read_version(&self) -> (r: Ebml<u64>)
        ensures
            seq![FieldModel::UInt { id: 0x42F7, idx: r.index, key: r.id, v: *r.v }] == seq![FieldModel::UInt { id: 0x42F7, idx: self.read_version.index, key: self.read_version.id, v: *self.read_version.v }],
    {
        crate::dup_ebml_copy(&self.read_version)
    }

    /// A deep copy of the `doc_type` slot.
    #[verifier::loop_isolation(false)]
    fn dup_doc_type(&self) -> (r: Ebml<String>)
        ensures
            seq![FieldModel::Text { id: 0x4282, idx: r.index, key: r.id, s: (*r.v)@ }] == seq![FieldModel::Text { id: 0x4282, idx: self.doc_type.index, key: self.doc_type.id, s: (*self.doc_type.v)@ }],
    {
        crate::dup_ebml_string(&self.doc_type)
    }

    /// A deep copy of the `doc_type_version` slot.
    #[verifier::loop_isolation(false)]
    fn dup_doc_type_version(&self) -> (r: Ebml<u64>)
        ensures
            seq![FieldModel::UInt { id: 0x4287, idx: r.index, key: r.id, v: *r.v }] == seq![FieldModel::UInt { id: 0x4287, idx: self.doc_type_version.index, key: self.doc_type_version.id, v: *self.doc_type_version.v }],
    {
        crate::dup_ebml_copy(&self.doc_type_version)
    }

    /// A deep copy of the `doc_type_read_version` slot.
    #[verifier::loop_isolation(false)]
    fn dup_doc_type_read_version(&self) -> (r: Ebml<u64>)
        ensures
            seq![FieldModel::UInt { id: 0x4285, idx: r.index, key: r.id, v: *r.v }] == seq![FieldModel::UInt { id: 0x4285, idx: self.doc_type_read_version.index, key: self.doc_type_read_version.id, v: *self.doc_type_read_version.v }],
    {
        crate::dup_ebml_copy(&self.doc_type_read_version)
    }

    /// A deep copy of the `doc_type_extension` slot.
    #[verifier::loop_isolation(false)]
    fn dup_doc_type_extension(&self) -> (r: Option<Ebml<DocTypeExtension>>)
        ensures
            (match &r { Some(e) => seq![FieldModel::Node { id: 0x4281, idx: e.index, key: e.id, children: (*e.v).model() }], None => Seq::empty() }) == (match &self.doc_type_extension { Some(e) => seq![FieldModel::Node { id: 0x4281, idx: e.index, key: e.id, children: (*e.v).model() }], None => Seq::empty() }),
    {
        match &self.doc_type_extension {
            Some(e) => {
                let d = (&*e.v).duplicate();
                proof {
                    reveal(DocTypeExtension::model);
                    assert(d.model() == (*e.v).model());
                }
                Some(Ebml { index: e.index, v: Box::new(d), id: e.id })
            },
            None => None,
        }
    }

    /// A deep copy of the `doc_type_extension_name` slot.
    #[verifier::loop_isolation(false)]
    fn dup_doc_type_extension_name(&self) -> (r: Option<Ebml<String>>)
        ensures
            (match &r { Some(e) => seq![FieldModel::Text { id: 0x4283, idx: e.index, key: e.id, s: (*e.v)@ }], None => Seq::empty() }) == (match &self.doc_type_extension_name { Some(e) => seq![FieldModel::Text { id: 0x4283, idx: e.index, key: e.id, s: (*e.v)@ }], None => Seq::empty() }),
    {
        match &self.doc_type_extension_name {
            Some(e) => Some(crate::dup_ebml_string(e)),
            None => None,
        }
    }

    /// A deep copy of the `doc_type_extension_version` slot.
    #[verifier::loop_isolation(false)]
    fn dup_doc_type_extension_version(&self) -> (r: Option<Ebml<u64>>)
        ensures
            (match &r { Some(e) => seq![FieldModel::UInt { id: 0x4284, idx: e.index, key: e.id, v: *e.v }], None => Seq::empty() }) == (match &self.doc_type_extension_version { Some(e) => seq![FieldModel::UInt { id: 0x4284, idx: e.index, key: e.id, v: *e.v }], None => Seq::empty() }),
    {
        match &self.doc_type_extension_version {
            Some(e) => Some(crate::dup_ebml_copy(e)),
            None => None,
        }
    }

    /// A deep copy of the `ebml_max_id_length` slot.
    #[verifier::loop_isolation(false)]
    fn dup_ebml_max_id_length(&self) -> (r: Ebml<u64>)
        ensures
            seq![FieldModel::UInt { id: 0x42F2, idx: r.index, key: r.id, v: *r.v }] == seq![FieldModel::UInt { id: 0x42F2, idx: self.ebml_max_id_length.index, key: self.ebml_max_id_length.id, v: *self.ebml_max_id_length.v }],
    {
        crate::dup_ebml_copy(&self.ebml_max_id_length)
    }

    /// A deep copy of the `ebml_max_size_length` slot.
    #[verifier::loop_isolation(false)]
    fn dup_ebml_max_size_length(&self) -> (r: Ebml<u64>)
        ensures
            seq![FieldModel::UInt { id: 0x42F3, idx: r.index, key: r.id, v: *r.v }] == seq![FieldModel::UInt { id: 0x42F3, idx: self.ebml_max_size_length.index, key: self.ebml_max_size_length.id, v: *self.ebml_max_size_length.v }],
    {
        crate::dup_ebml_copy(&self.ebml_max_size_length)
    }

    /// A deep copy with the same children, positions, and keys.
    #[verifier::rlimit(100)]
    #[verifier::spinoff_prover]
    pub fn duplicate(&self) -> (r: Self)
        ensures
            r.raw_model() == self.raw_model(),
            r.size == self.size,
    {
        let r = EbmlHeader {
            size: self.size,
            version: self.dup_version(),
            read_version: self.dup_read_version(),
            doc_type: self.dup_doc_type(),
            doc_type_version: self.dup_doc_type_version(),
            doc_type_read_version: self.dup_doc_type_read_version(),
            doc_type_extension: self.dup_doc_type_extension(),
            doc_type_extension_name: self.dup_doc_type_extension_name(),
            doc_type_extension_version: self.dup_doc_type_extension_version(),
            ebml_max_id_length: self.dup_ebml_max_id_length(),
            ebml_max_size_length: self.dup_ebml_max_size_length(),
        };
        proof {
            reveal(EbmlHeader::raw_model);
            assert(r.raw_model() == self.raw_model());
        }
        r
    }
}

impl EbmlHeader {
    /// Serialise the whole element: body to a scratch buffer first, then
    /// the header with the now-known length, then the body.
    pub fn write_blocking(&self, w: &mut Vec<u8>) -> (r: Result<usize, MatroskaError>)
        ensures
            r is Ok <==> body_ok_rec(self.model()) && cat_bytes(self.model()).len() < 0xFFFFFFFFFFFFFF,
            r is Ok ==> final(w)@ == old(w)@ + node_frame_bytes(0x1A45DFA3, cat_bytes(self.model()))
                && r->Ok_0 == node_frame_bytes(0x1A45DFA3, cat_bytes(self.model())).len(),
            r is Err ==> final(w)@ == old(w)@ && r->Err_0 is InvalidVarIntMoreThanVintMax,
    {
        let mut buf: Vec<u8> = Vec::new();
        match self.write_body_blocking(&mut buf) {
            Ok(_) => {},
            Err(e) => {
                return Err(e);
            },
        }
        let start = w.len();
        match crate::io::write_element_id_size(w, 0x1A45DFA3, buf.len() as u64) {
            Ok(_) => {},
            Err(e) => {
                return Err(e);
            },
        }
        w.append(&mut buf);
        Ok(w.len() - start)
    }

    /// Write this element's header with the given body size.
    pub fn write_header_blocking(&self, w: &mut Vec<u8>, size: u64) -> (r: Result<usize, MatroskaError>)
        ensures
            r is Ok <==> crate::io::size_encodable(size),
            r is Ok ==> final(w)@ == old(w)@ + crate::io::header_bytes(0x1A45DFA3, size)
                && r->Ok_0 == crate::io::header_bytes(0x1A45DFA3, size).len(),
            r is Err ==> final(w)@ == old(w)@ && r->Err_0 is InvalidVarIntMoreThanVintMax,
    {
        crate::io::write_element_id_size(w, 0x1A45DFA3, size)
    }

    /// Write the body: every present child, in emission order.
    #[verifier::loop_isolation(false)]
    #[verifier::rlimit(60)]
    #[verifier::spinoff_prover]
    pub fn write_body_blocking(&self, w: &mut Vec<u8>) -> (r: Result<usize, MatroskaError>)
        ensures
            r is Ok <==> body_ok_rec(self.model()),
            r is Ok ==> final(w)@ == old(w)@ + cat_bytes(self.model())
                && r->Ok_0 == cat_bytes(self.model()).len(),
            r is Err ==> r->Err_0 is InvalidVarIntMoreThanVintMax,
    {
        let fields = self.elements();
        let start = w.len();
        let ghost ms = self.model();
        let mut i: usize = 0;
        while i < fields.len()
            invariant
                i <= fields@.len(),
                models_of::<EbmlHeaderFields>(fields@) == ms,
                w@ == old(w)@ + cat_bytes(ms.take(i as int)),
                body_ok_rec(ms.take(i as int)),
            decreases fields@.len() - i,
        {
            proof {
                assert(models_of::<EbmlHeaderFields>(fields@)[i as int] == ms[i as int]);
            }
            match fields[i].write_el(w) {
                Ok(_) => {},
                Err(e) => {
                    proof {
                        lemma_body_ok_forall(ms);
                    }
                    return Err(e);
                },
            }
            proof {
                assert(ms.take(i + 1) =~= ms.take(i as int).push(ms[i as int]));
                lemma_cat_snoc(ms.take(i as int), ms[i as int]);
            }
            i += 1;
        }
        proof {
            assert(ms.take(ms.len() as int) =~= ms);
            lemma_body_ok_forall(ms);
        }
        Ok(w.len() - start)
    }
}

/// One present child of a `EbmlHeader`, paired with its value.
#[derive(Debug)]
pub enum EbmlHeaderFields {
    Version(Ebml<u64>),
    ReadVersion(Ebml<u64>),
    DocType(Ebml<String>),
    DocTypeVersion(Ebml<u64>),
    DocTypeReadVersion(Ebml<u64>),
    DocTypeExtension(Ebml<DocTypeExtension>),
    DocTypeExtensionName(Ebml<String>),
    DocTypeExtensionVersion(Ebml<u64>),
    EbmlMaxIdLength(Ebml<u64>),
    EbmlMaxSizeLength(Ebml<u64>),
}

impl EbmlHeaderFields {
    /// The child's element ID and its two ordering slots.
    #[verifier::rlimit(60)]
    #[verifier::spinoff_prover]
    pub fn index(&self) -> (r: (EbmlId, Option<u64>, u64))
        ensures
            r.0.spec_u64() == self.model().eid(),
            r.1 == self.model().idx(),
            r.2 == self.model().key(),
    {
        match self {
            Self::Version(val) => (EbmlId::Version, val.index, val.id),
            Self::ReadVersion(val) => (EbmlId::ReadVersion, val.index, val.id),
            Self::DocType(val) => (EbmlId::DocType, val.index, val.id),
            Self::DocTypeVersion(val) => (EbmlId::DocTypeVersion, val.index, val.id),
            Self::DocTypeReadVersion(val) => (EbmlId::DocTypeReadVersion, val.index, val.id),
            Self::DocTypeExtension(val) => (EbmlId::DocTypeExtension, val.index, val.id),
            Self::DocTypeExtensionName(val) => (EbmlId::DocTypeExtensionName, val.index, val.id),
            Self::DocTypeExtensionVersion(val) => (EbmlId::DocTypeExtensionVersion, val.index, val.id),
            Self::EbmlMaxIdLength(val) => (EbmlId::EbmlMaxIdLength, val.index, val.id),
            Self::EbmlMaxSizeLength(val) => (EbmlId::EbmlMaxSizeLength, val.index, val.id),
        }
    }

    /// Write this child's frame.
    #[verifier::rlimit(60)]
    #[verifier::spinoff_prover]
    pub fn write_el(&self, w: &mut Vec<u8>) -> (r: Result<usize, MatroskaError>)
        ensures
            r is Ok <==> el_ok(self.model()),
            r is Ok ==> final(w)@ == old(w)@ + el_bytes(self.model())
                && r->Ok_0 == el_bytes(self.model()).len(),
            r is Err ==> final(w)@ == old(w)@ && r->Err_0 is InvalidVarIntMoreThanVintMax,
    {
        match self {
            Self::Version(val) => crate::io::write_el_uint(w, 0x4286, &*val.v),
            Self::ReadVersion(val) => crate::io::write_el_uint(w, 0x42F7, &*val.v),
            Self::DocType(val) => crate::io::write_el_utf8(w, 0x4282, (*val.v).as_str()),
            Self::DocTypeVersion(val) => crate::io::write_el_uint(w, 0x4287, &*val.v),
            Self::DocTypeReadVersion(val) => crate::io::write_el_uint(w, 0x4285, &*val.v),
            Self::DocTypeExtension(val) => (*val.v).write_blocking(w),
            Self::DocTypeExtensionName(val) => crate::io::write_el_utf8(w, 0x4283, (*val.v).as_str()),
            Self::DocTypeExtensionVersion(val) => crate::io::write_el_uint(w, 0x4284, &*val.v),
            Self::EbmlMaxIdLength(val) => crate::io::write_el_uint(w, 0x42F2, &*val.v),
            Self::EbmlMaxSizeLength(val) => crate::io::write_el_uint(w, 0x42F3, &*val.v),
        }
    }
}

impl EbmlField for EbmlHeaderFields {
    open spec fn model(&self) -> FieldModel {
        match self {
            Self::Version(e) => FieldModel::UInt { id: 0x4286, idx: e.index, key: e.id, v: *e.v },
            Self::ReadVersion(e) => FieldModel::UInt { id: 0x42F7, idx: e.index, key: e.id, v: *e.v },
            Self::DocType(e) => FieldModel::Text { id: 0x4282, idx: e.index, key: e.id, s: (*e.v)@ },
            Self::DocTypeVersion(e) => FieldModel::UInt { id: 0x4287, idx: e.index, key: e.id, v: *e.v },
            Self::DocTypeReadVersion(e) => FieldModel::UInt { id: 0x4285, idx: e.index, key: e.id, v: *e.v },
            Self::DocTypeExtension(e) => FieldModel::Node { id: 0x4281, idx: e.index, key: e.id, children: (*e.v).model() },
            Self::DocTypeExtensionName(e) => FieldModel::Text { id: 0x4283, idx: e.index, key: e.id, s: (*e.v)@ },
            Self::DocTypeExtensionVersion(e) => FieldModel::UInt { id: 0x4284, idx: e.index, key: e.id, v: *e.v },
            Self::EbmlMaxIdLength(e) => FieldModel::UInt { id: 0x42F2, idx: e.index, key: e.id, v: *e.v },
            Self::EbmlMaxSizeLength(e) => FieldModel::UInt { id: 0x42F3, idx: e.index, key: e.id, v: *e.v },
        }
    }

    fn sort_key(&self) -> (r: (Option<u64>, u64)) {
        match self {
            Self::Version(e) => (e.index, e.id),
            Self::ReadVersion(e) => (e.index, e.id),
            Self::DocType(e) => (e.index, e.id),
            Self::DocTypeVersion(e) => (e.index, e.id),
            Self::DocTypeReadVersion(e) => (e.index, e.id),
            Self::DocTypeExtension(e) => (e.index, e.id),
            Self::DocTypeExtensionName(e) => (e.index, e.id),
            Self::DocTypeExtensionVersion(e) => (e.index, e.id),
            Self::EbmlMaxIdLength(e) => (e.index, e.id),
            Self::EbmlMaxSizeLength(e) => (e.index, e.id),
        }
    }
}

/// The `DocTypeExtension` structural element.
#[derive(Debug)]
pub struct DocTypeExtension {
    pub size: u64,
}

impl DocTypeExtension {
    /// The models of the children, in declaration order.
    #[verifier::opaque]
    pub open spec fn raw_model(self) -> Seq<FieldModel>
    {
        Seq::empty()
    }

    /// The children in emission order.
    #[verifier::opaque]
    pub open spec fn model(self) -> Seq<FieldModel>
    {
        sort_fields_spec(self.raw_model())
    }

    /// A deep copy with the same children, positions, and keys.
    #[verifier::rlimit(100)]
    #[verifier::spinoff_prover]
    pub fn duplicate(&self) -> (r: Self)
        ensures
            r.raw_model() == self.raw_model(),
            r.size == self.size,
    {
        let r = DocTypeExtension {
            size: self.size,
        };
        proof {
            reveal(DocTypeExtension::raw_model);
            assert(r.raw_model() == self.raw_model());
        }
        r
    }
}

impl DocTypeExtension {
    /// Serialise the whole element: body to a scratch buffer first, then
    /// the header with the now-known length, then the body.
    pub fn write_blocking(&self, w: &mut Vec<u8>) -> (r: Result<usize, MatroskaError>)
        ensures
            r is Ok <==> body_ok_rec(self.model()) && cat_bytes(self.model()).len() < 0xFFFFFFFFFFFFFF,
            r is Ok ==> final(w)@ == old(w)@ + node_frame_bytes(0x4281, cat_bytes(self.model()))
                && r->Ok_0 == node_frame_bytes(0x4281, cat_bytes(self.model())).len(),
            r is Err ==> final(w)@ == old(w)@ && r->Err_0 is InvalidVarIntMoreThanVintMax,
    {
        let mut buf: Vec<u8> = Vec::new();
        match self.write_body_blocking(&mut buf) {
            Ok(_) => {},
            Err(e) => {
                return Err(e);
            },
        }
        let start = w.len();
        match crate::io::write_element_id_size(w, 0x4281, buf.len() as u64) {
            Ok(_) => {},
            Err(e) => {
                return Err(e);
            },
        }
        w.append(&mut buf);
        Ok(w.len() - start)
    }

    /// Write this element's header with the given body size.
    pub fn write_header_blocking(&self, w: &mut Vec<u8>, size: u64) -> (r: Result<usize, MatroskaError>)
        ensures
            r is Ok <==> crate::io::size_encodable(size),
            r is Ok ==> final(w)@ == old(w)@ + crate::io::header_bytes(0x4281, size)
                && r->Ok_0 == crate::io::header_bytes(0x4281, size).len(),
            r is Err ==> final(w)@ == old(w)@ && r->Err_0 is InvalidVarIntMoreThanVintMax,
    {
        crate::io::write_element_id_size(w, 0x4281, size)
    }

    /// Write the body: every present child, in emission order.
    #[verifier::loop_isolation(false)]
    #[verifier::rlimit(60)]
    #[verifier::spinoff_prover]
    pub fn write_body_blocking(&self, w: &mut Vec<u8>) -> (r: Result<usize, MatroskaError>)
        ensures
            r is Ok <==> body_ok_rec(self.model()),
            r is Ok ==> final(w)@ == old(w)@ + cat_bytes(self.model())
                && r->Ok_0 == cat_bytes(self.model()).len(),
            r is Err ==> r->Err_0 is InvalidVarIntMoreThanVintMax,
    {
        proof {
            reveal(DocTypeExtension::raw_model);
            reveal(DocTypeExtension::model);
            assert(self.raw_model() =~= Seq::<FieldModel>::empty());
            assert(cat_bytes(self.model()).len() == 0);
        }
        Ok(0)
    }
}

/// The `Segment` structural element.
#[derive(Debug)]
pub struct Segment {
    pub size: ElementSize,
    pub void: Vec<Ebml<Vec<u8>>>,
    pub crc_32: Option<Ebml<Vec<u8>>>,
    pub seek_head: Vec<Ebml<SeekHead>>,
    pub info: Ebml<Info>,
    pub cluster: Vec<Ebml<Cluster>>,
    pub tracks: Option<Ebml<Tracks>>,
    pub cues: Option<Ebml<Cues>>,
    pub attachments: Option<Ebml<Attachments>>,
    pub chapters: Option<Ebml<Chapters>>,
    pub tags: Vec<Ebml<Tags>>,
}

/// The models of the `void` children of a `Segment`.
pub open spec fn segment_void_models(s: Seq<Ebml<Vec<u8>>>) -> Seq<FieldModel> {
    s.map_values(|e: Ebml<Vec<u8>>| FieldModel::Bin { id: 0xEC, idx: e.index, key: e.id, b: (*e.v)@ })
}

/// The models of the `seek_head` children of a `Segment`.
pub open spec fn segment_seek_head_models(s: Seq<Ebml<SeekHead>>) -> Seq<FieldModel> {
    s.map_values(|e: Ebml<SeekHead>| FieldModel::Node { id: 0x114D9B74, idx: e.index, key: e.id, children: (*e.v).model() })
}

/// The models of the `cluster` children of a `Segment`.
pub open spec fn segment_cluster_models(s: Seq<Ebml<Cluster>>) -> Seq<FieldModel> {
    s.map_values(|e: Ebml<Cluster>| FieldModel::Node { id: 0x1F43B675, idx: e.index, key: e.id, children: (*e.v).model() })
}

/// The models of the `tags` children of a `Segment`.
pub open spec fn segment_tags_models(s: Seq<Ebml<Tags>>) -> Seq<FieldModel> {
    s.map_values(|e: Ebml<Tags>| FieldModel::Node { id: 0x1254C367, idx: e.index, key: e.id, children: (*e.v).model() })
}

impl Segment {
    /// The models of the children, in declaration order.
    #[verifier::opaque]
    pub open spec fn raw_model(self) -> Seq<FieldModel>
    {
        segment_void_models(self.void@)
            + (match self.crc_32 { Some(e) => seq![FieldModel::Bin { id: 0xBF, idx: e.index, key: e.id, b: (*e.v)@ }], None => Seq::empty() })
            + segment_seek_head_models(self.seek_head@)
            + seq![FieldModel::Node { id: 0x1549A966, idx: self.info.index, key: self.info.id, children: (*self.info.v).model() }]
            + segment_cluster_models(self.cluster@)
            + (match self.tracks { Some(e) => seq![FieldModel::Node { id: 0x1654AE6B, idx: e.index, key: e.id, children: (*e.v).model() }], None => Seq::empty() })
            + (match self.cues { Some(e) => seq![FieldModel::Node { id: 0x1C53BB6B, idx: e.index, key: e.id, children: (*e.v).model() }], None => Seq::empty() })
            + (match self.attachments { Some(e) => seq![FieldModel::Node { id: 0x1941A469, idx: e.index, key: e.id, children: (*e.v).model() }], None => Seq::empty() })
            + (match self.chapters { Some(e) => seq![FieldModel::Node { id: 0x1043A770, idx: e.index, key: e.id, children: (*e.v).model() }], None => Seq::empty() })
            + segment_tags_models(self.tags@)
    }

    /// The children in emission order.
    #[verifier::opaque]
    pub open spec fn model(self) -> Seq<FieldModel>
    {
        sort_fields_spec(self.raw_model())
    }

    /// Append the `void` child values to a field run.
    #[verifier::loop_isolation(false)]
    fn push_void(&self, v: &mut Vec<SegmentFields>)
        ensures
            models_of::<SegmentFields>(final(v)@) == models_of::<SegmentFields>(old(v)@) + segment_void_models(self.void@),
    {
        let ghost base = models_of::<SegmentFields>(v@);
        let mut i: usize = 0;
        while i < self.void.len()
            invariant
                i <= self.void@.len(),
                models_of::<SegmentFields>(v@) == base + segment_void_models(self.void@.take(i as int)),
            decreases self.void@.len() - i,
        {
            let e = &self.void[i];
            let ghost prevv = v@;
            v.push(SegmentFields::Void(crate::dup_ebml_bytes(e)));
            proof {
                assert(self.void@.take(i + 1) =~= self.void@.take(i as int).push(self.void@[i as int]));
                assert(models_of::<SegmentFields>(v@) =~= models_of::<SegmentFields>(prevv).push(v@.last().model()));
                assert(segment_void_models(self.void@.take(i + 1)) =~= segment_void_models(self.void@.take(i as int)).push(v@.last().model()));
                assert(base + segment_void_models(self.void@.take(i + 1)) =~= (base + segment_void_models(self.void@.take(i as int))).push(v@.last().model()));
            }
            i += 1;
        }
        proof {
            assert(self.void@.take(self.void@.len() as int) =~= self.void@);
        }
    }

    /// Append the `crc_32` child values to a field run.
    #[verifier::loop_isolation(false)]
    fn push_crc_32(&self, v: &mut Vec<SegmentFields>)
        ensures
            models_of::<SegmentFields>(final(v)@) == models_of::<SegmentFields>(old(v)@) + (match &self.crc_32 { Some(e) => seq![FieldModel::Bin { id: 0xBF, idx: e.index, key: e.id, b: (*e.v)@ }], None => Seq::empty() }),
    {
        match &self.crc_32 {
            Some(e) => {
                let ghost prevv = v@;
                v.push(SegmentFields::Crc32(crate::dup_ebml_bytes(e)));
                proof {
                    assert(models_of::<SegmentFields>(v@) =~= models_of::<SegmentFields>(prevv).push(v@.last().model()));
                    assert(models_of::<SegmentFields>(prevv).push(v@.last().model()) =~= models_of::<SegmentFields>(prevv) + (match &self.crc_32 { Some(e) => seq![FieldModel::Bin { id: 0xBF, idx: e.index, key: e.id, b: (*e.v)@ }], None => Seq::empty() }));
                }
            },
            None => {
                proof {
                    assert(models_of::<SegmentFields>(v@) =~= models_of::<SegmentFields>(v@) + (match &self.crc_32 { Some(e) => seq![FieldModel::Bin { id: 0xBF, idx: e.index, key: e.id, b: (*e.v)@ }], None => Seq::empty() }));
                }
            },
        }
    }

    /// Append the `seek_head` child values to a field run.
    #[verifier::loop_isolation(false)]
    fn push_seek_head(&self, v: &mut Vec<SegmentFields>)
        ensures
            models_of::<SegmentFields>(final(v)@) == models_of::<SegmentFields>(old(v)@) + segment_seek_head_models(self.seek_head@),
    {
        let ghost base = models_of::<SegmentFields>(v@);
        let mut i: usize = 0;
        while i < self.seek_head.len()
            invariant
                i <= self.seek_head@.len(),
                models_of::<SegmentFields>(v@) == base + segment_seek_head_models(self.seek_head@.take(i as int)),
            decreases self.seek_head@.len() - i,
        {
            let e = &self.seek_head[i];
            let d = (&*e.v).duplicate();
            proof {
                reveal(SeekHead::model);
                assert(d.model() == (*e.v).model());
            }
            let ghost prevv = v@;
            v.push(SegmentFields::SeekHead(Ebml { index: e.index, v: Box::new(d), id: e.id }));
            proof {
                assert(self.seek_head@.take(i + 1) =~= self.seek_head@.take(i as int).push(self.seek_head@[i as int]));
                assert(models_of::<SegmentFields>(v@) =~= models_of::<SegmentFields>(prevv).push(v@.last().model()));
                assert(segment_seek_head_models(self.seek_head@.take(i + 1)) =~= segment_seek_head_models(self.seek_head@.take(i as int)).push(v@.last().model()));
                assert(base + segment_seek_head_models(self.seek_head@.take(i + 1)) =~= (base + segment_seek_head_models(self.seek_head@.take(i as int))).push(v@.last().model()));
            }
            i += 1;
        }
        proof {
            assert(self.seek_head@.take(self.seek_head@.len() as int) =~= self.seek_head@);
        }
    }

    /// Append the `info` child values to a field run.
    #[verifier::loop_isolation(false)]
    fn push_info(&self, v: &mut Vec<SegmentFields>)
        ensures
            models_of::<SegmentFields>(final(v)@) == models_of::<SegmentFields>(old(v)@) + seq![FieldModel::Node { id: 0x1549A966, idx: self.info.index, key: self.info.id, children: (*self.info.v).model() }],
    {
        let d = (&*self.info.v).duplicate();
        proof {
            reveal(Info::model);
            assert(d.model() == (*self.info.v).model());
        }
        let ghost prevv = v@;
        v.push(SegmentFields::Info(Ebml { index: self.info.index, v: Box::new(d), id: self.info.id }));
        proof {
            assert(models_of::<SegmentFields>(v@) =~= models_of::<SegmentFields>(prevv).push(v@.last().model()));
            assert(models_of::<SegmentFields>(prevv).push(v@.last().model()) =~= models_of::<SegmentFields>(prevv) + seq![FieldModel::Node { id: 0x1549A966, idx: self.info.index, key: self.info.id, children: (*self.info.v).model() }]);
        }
    }

    /// Append the `cluster` child values to a field run.
    #[verifier::loop_isolation(false)]
    fn push_cluster(&self, v: &mut Vec<SegmentFields>)
        ensures
            models_of::<SegmentFields>(final(v)@) == models_of::<SegmentFields>(old(v)@) + segment_cluster_models(self.cluster@),
    {
        let ghost base = models_of::<SegmentFields>(v@);
        let mut i: usize = 0;
        while i < self.cluster.len()
            invariant
                i <= self.cluster@.len(),
                models_of::<SegmentFields>(v@) == base + segment_cluster_models(self.cluster@.take(i as int)),
            decreases self.cluster@.len() - i,
        {
            let e = &self.cluster[i];
            let d = (&*e.v).duplicate();
            proof {
                reveal(Cluster::model);
                assert(d.model() == (*e.v).model());
            }
            let ghost prevv = v@;
            v.push(SegmentFields::Cluster(Ebml { index: e.index, v: Box::new(d), id: e.id }));
            proof {
                assert(self.cluster@.take(i + 1) =~= self.cluster@.take(i as int).push(self.cluster@[i as int]));
                assert(models_of::<SegmentFields>(v@) =~= models_of::<SegmentFields>(prevv).push(v@.last().model()));
                assert(segment_cluster_models(self.cluster@.take(i + 1)) =~= segment_cluster_models(self.cluster@.take(i as int)).push(v@.last().model()));
                assert(base + segment_cluster_models(self.cluster@.take(i + 1)) =~= (base + segment_cluster_models(self.cluster@.take(i as int))).push(v@.last().model()));
            }
            i += 1;
        }
        proof {
            assert(self.cluster@.take(self.cluster@.len() as int) =~= self.cluster@);
        }
    }

    /// Append the `tracks` child values to a field run.
    #[verifier::loop_isolation(false)]
    fn push_tracks(&self, v: &mut Vec<SegmentFields>)
        ensures
            models_of::<SegmentFields>(final(v)@) == models_of::<SegmentFields>(old(v)@) + (match &self.tracks { Some(e) => seq![FieldModel::Node { id: 0x1654AE6B, idx: e.index, key: e.id, children: (*e.v).model() }], None => Seq::empty() }),
    {
        match &self.tracks {
            Some(e) => {
                let d = (&*e.v).duplicate();
                proof {
                    reveal(Tracks::model);
                    assert(d.model() == (*e.v).model());
                }
                let ghost prevv = v@;
                v.push(SegmentFields::Tracks(Ebml { index: e.index, v: Box::new(d), id: e.id }));
                proof {
                    assert(models_of::<SegmentFields>(v@) =~= models_of::<SegmentFields>(prevv).push(v@.last().model()));
                    assert(models_of::<SegmentFields>(prevv).push(v@.last().model()) =~= models_of::<SegmentFields>(prevv) + (match &self.tracks { Some(e) => seq![FieldModel::Node { id: 0x1654AE6B, idx: e.index, key: e.id, children: (*e.v).model() }], None => Seq::empty() }));
                }
            },
            None => {
                proof {
                    assert(models_of::<SegmentFields>(v@) =~= models_of::<SegmentFields>(v@) + (match &self.tracks { Some(e) => seq![FieldModel::Node { id: 0x1654AE6B, idx: e.index, key: e.id, children: (*e.v).model() }], None => Seq::empty() }));
                }
            },
        }
    }

    /// Append the `cues` child values to a field run.
    #[verifier::loop_isolation(false)]
    fn push_cues(&self, v: &mut Vec<SegmentFields>)
        ensures
            models_of::<SegmentFields>(final(v)@) == models_of::<SegmentFields>(old(v)@) + (match &self.cues { Some(e) => seq![FieldModel::Node { id: 0x1C53BB6B, idx: e.index, key: e.id, children: (*e.v).model() }], None => Seq::empty() }),
    {
        match &self.cues {
            Some(e) => {
                let d = (&*e.v).duplicate();
                proof {
                    reveal(Cues::model);
                    assert(d.model() == (*e.v).model());
                }
                let ghost prevv = v@;
                v.push(SegmentFields::Cues(Ebml { index: e.index, v: Box::new(d), id: e.id }));
                proof {
                    assert(models_of::<SegmentFields>(v@) =~= models_of::<SegmentFields>(prevv).push(v@.last().model()));
                    assert(models_of::<SegmentFields>(prevv).push(v@.last().model()) =~= models_of::<SegmentFields>(prevv) + (match &self.cues { Some(e) => seq![FieldModel::Node { id: 0x1C53BB6B, idx: e.index, key: e.id, children: (*e.v).model() }], None => Seq::empty() }));
                }
            },
            None => {
                proof {
                    assert(models_of::<SegmentFields>(v@) =~= models_of::<SegmentFields>(v@) + (match &self.cues { Some(e) => seq![FieldModel::Node { id: 0x1C53BB6B, idx: e.index, key: e.id, children: (*e.v).model() }], None => Seq::empty() }));
                }
            },
        }
    }

    /// Append the `attachments` child values to a field run.
    #[verifier::loop_isolation(false)]
    fn push_attachments(&self, v: &mut Vec<SegmentFields>)
        ensures
            models_of::<SegmentFields>(final(v)@) == models_of::<SegmentFields>(old(v)@) + (match &self.attachments { Some(e) => seq![FieldModel::Node { id: 0x1941A469, idx: e.index, key: e.id, children: (*e.v).model() }], None => Seq::empty() }),
    {
        match &self.attachments {
            Some(e) => {
                let d = (&*e.v).duplicate();
                proof {
                    reveal(Attachments::model);
                    assert(d.model() == (*e.v).model());
                }
                let ghost prevv = v@;
                v.push(SegmentFields::Attachments(Ebml { index: e.index, v: Box::new(d), id: e.id }));
                proof {
                    assert(models_of::<SegmentFields>(v@) =~= models_of::<SegmentFields>(prevv).push(v@.last().model()));
                    assert(models_of::<SegmentFields>(prevv).push(v@.last().model()) =~= models_of::<SegmentFields>(prevv) + (match &self.attachments { Some(e) => seq![FieldModel::Node { id: 0x1941A469, idx: e.index, key: e.id, children: (*e.v).model() }], None => Seq::empty() }));
                }
            },
            None => {
                proof {
                    assert(models_of::<SegmentFields>(v@) =~= models_of::<SegmentFields>(v@) + (match &self.attachments { Some(e) => seq![FieldModel::Node { id: 0x1941A469, idx: e.index, key: e.id, children: (*e.v).model() }], None => Seq::empty() }));
                }
            },
        }
    }

    /// Append the `chapters` child values to a field run.
    #[verifier::loop_isolation(false)]
    fn push_chapters(&self, v: &mut Vec<SegmentFields>)
        ensures
            models_of::<SegmentFields>(final(v)@) == models_of::<SegmentFields>(old(v)@) + (match &self.chapters { Some(e) => seq![FieldModel::Node { id: 0x1043A770, idx: e.index, key: e.id, children: (*e.v).model() }], None => Seq::empty() }),
    {
        match &self.chapters {
            Some(e) => {
                let d = (&*e.v).duplicate();
                proof {
                    reveal(Chapters::model);
                    assert(d.model() == (*e.v).model());
                }
                let ghost prevv = v@;
                v.push(SegmentFields::Chapters(Ebml { index: e.index, v: Box::new(d), id: e.id }));
                proof {
                    assert(models_of::<SegmentFields>(v@) =~= models_of::<SegmentFields>(prevv).push(v@.last().model()));
                    assert(models_of::<SegmentFields>(prevv).push(v@.last().model()) =~= models_of::<SegmentFields>(prevv) + (match &self.chapters { Some(e) => seq![FieldModel::Node { id: 0x1043A770, idx: e.index, key: e.id, children: (*e.v).model() }], None => Seq::empty() }));
                }
            },
            None => {
                proof {
                    assert(models_of::<SegmentFields>(v@) =~= models_of::<SegmentFields>(v@) + (match &self.chapters { Some(e) => seq![FieldModel::Node { id: 0x1043A770, idx: e.index, key: e.id, children: (*e.v).model() }], None => Seq::empty() }));
                }
            },
        }
    }

    /// Append the `tags` child values to a field run.
    #[verifier::loop_isolation(false)]
    fn push_tags(&self, v: &mut Vec<SegmentFields>)
        ensures
            models_of::<SegmentFields>(final(v)@) == models_of::<SegmentFields>(old(v)@) + segment_tags_models(self.tags@),
    {
        let ghost base = models_of::<SegmentFields>(v@);
        let mut i: usize = 0;
        while i < self.tags.len()
            invariant
                i <= self.tags@.len(),
                models_of::<SegmentFields>(v@) == base + segment_tags_models(self.tags@.take(i as int)),
            decreases self.tags@.len() - i,
        {
            let e = &self.tags[i];
            let d = (&*e.v).duplicate();
            proof {
                reveal(Tags::model);
                assert(d.model() == (*e.v).model());
            }
            let ghost prevv = v@;
            v.push(SegmentFields::Tags(Ebml { index: e.index, v: Box::new(d), id: e.id }));
            proof {
                assert(self.tags@.take(i + 1) =~= self.tags@.take(i as int).push(self.tags@[i as int]));
                assert(models_of::<SegmentFields>(v@) =~= models_of::<SegmentFields>(prevv).push(v@.last().model()));
                assert(segment_tags_models(self.tags@.take(i + 1)) =~= segment_tags_models(self.tags@.take(i as int)).push(v@.last().model()));
                assert(base + segment_tags_models(self.tags@.take(i + 1)) =~= (base + segment_tags_models(self.tags@.take(i as int))).push(v@.last().model()));
            }
            i += 1;
        }
        proof {
            assert(self.tags@.take(self.tags@.len() as int) =~= self.tags@);
        }
    }

    /// The present children, each paired with its ID, in emission order.
    #[verifier::rlimit(100)]
    #[verifier::spinoff_prover]
    pub fn elements(&self) -> (r: Vec<SegmentFields>)
        ensures
            models_of::<SegmentFields>(r@) == self.model(),
    {
        let mut v: Vec<SegmentFields> = Vec::new();
        proof {
            assert(models_of::<SegmentFields>(v@) =~= Seq::<FieldModel>::empty());
        }
        self.push_void(&mut v);
        self.push_crc_32(&mut v);
        self.push_seek_head(&mut v);
        self.push_info(&mut v);
        self.push_cluster(&mut v);
        self.push_tracks(&mut v);
        self.push_cues(&mut v);
        self.push_attachments(&mut v);
        self.push_chapters(&mut v);
        self.push_tags(&mut v);
        proof {
            reveal(Segment::raw_model);
            reveal(Segment::model);
            assert(Seq::<FieldModel>::empty() + segment_void_models(self.void@) =~= segment_void_models(self.void@));
            assert(models_of::<SegmentFields>(v@) == self.raw_model());
        }
        sort_fields(v)
    }

    /// A deep copy of the `void` slot.
    #[verifier::loop_isolation(false)]
    fn dup_void(&self) -> (r: Vec<Ebml<Vec<u8>>>)
        ensures
            segment_void_models(r@) == segment_void_models(self.void@),
    {
        let mut out: Vec<Ebml<Vec<u8>>> = Vec::new();
        let mut i: usize = 0;
        while i < self.void.len()
            invariant
                i <= self.void@.len(),
                segment_void_models(out@) == segment_void_models(self.void@.take(i as int)),
            decreases self.void@.len() - i,
        {
            let e = &self.void[i];
            let ghost prevo = out@;
            out.push(crate::dup_ebml_bytes(e));
            proof {
                assert(self.void@.take(i + 1) =~= self.void@.take(i as int).push(self.void@[i as int]));
                assert(out@.drop_last() =~= prevo);
                assert(self.void@.take(i + 1).drop_last() =~= self.void@.take(i as int));
                assert(FieldModel::Bin { id: 0xEC, idx: (out@.last()).index, key: (out@.last()).id, b: (*(out@.last()).v)@ } == FieldModel::Bin { id: 0xEC, idx: (self.void@[i as int]).index, key: (self.void@[i as int]).id, b: (*(self.void@[i as int]).v)@ });
                assert(segment_void_models(out@) =~= segment_void_models(prevo).push(FieldModel::Bin { id: 0xEC, idx: (out@.last()).index, key: (out@.last()).id, b: (*(out@.last()).v)@ }));
                assert(segment_void_models(self.void@.take(i + 1)) =~= segment_void_models(self.void@.take(i as int)).push(FieldModel::Bin { id: 0xEC, idx: (self.void@[i as int]).index, key: (self.void@[i as int]).id, b: (*(self.void@[i as int]).v)@ }));
            }
            i += 1;
        }
        proof {
            assert(self.void@.take(self.void@.len() as int) =~= self.void@);
        }
        out
    }

    /// A deep copy of the `crc_32` slot.
    #[verifier::loop_isolation(false)]
    fn dup_crc_32(&self) -> (r: Option<Ebml<Vec<u8>>>)
        ensures
            (match &r { Some(e) => seq![FieldModel::Bin { id: 0xBF, idx: e.index, key: e.id, b: (*e.v)@ }], None => Seq::empty() }) == (match &self.crc_32 { Some(e) => seq![FieldModel::Bin { id: 0xBF, idx: e.index, key: e.id, b: (*e.v)@ }], None => Seq::empty() }),
    {
        match &self.crc_32 {
            Some(e) => Some(crate::dup_ebml_bytes(e)),
            None => None,
        }
    }

    /// A deep copy of the `seek_head` slot.
    #[verifier::loop_isolation(false)]
    fn dup_seek_head(&self) -> (r: Vec<Ebml<SeekHead>>)
        ensures
            segment_seek_head_models(r@) == segment_seek_head_models(self.seek_head@),
    {
        let mut out: Vec<Ebml<SeekHead>> = Vec::new();
        let mut i: usize = 0;
        while i < self.seek_head.len()
            invariant
                i <= self.seek_head@.len(),
                segment_seek_head_models(out@) == segment_seek_head_models(self.seek_head@.take(i as int)),
            decreases self.seek_head@.len() - i,
        {
            let e = &self.seek_head[i];
            let d = (&*e.v).duplicate();
            proof {
                reveal(SeekHead::model);
                assert(d.model() == (*e.v).model());
            }
            let ghost prevo = out@;
            out.push(Ebml { index: e.index, v: Box::new(d), id: e.id });
            proof {
                assert(self.seek_head@.take(i + 1) =~= self.seek_head@.take(i as int).push(self.seek_head@[i as int]));
                assert(out@.drop_last() =~= prevo);
                assert(self.seek_head@.take(i + 1).drop_last() =~= self.seek_head@.take(i as int));
                assert(FieldModel::Node { id: 0x114D9B74, idx: (out@.last()).index, key: (out@.last()).id, children: (*(out@.last()).v).model() } == FieldModel::Node { id: 0x114D9B74, idx: (self.seek_head@[i as int]).index, key: (self.seek_head@[i as int]).id, children: (*(self.seek_head@[i as int]).v).model() });
                assert(segment_seek_head_models(out@) =~= segment_seek_head_models(prevo).push(FieldModel::Node { id: 0x114D9B74, idx: (out@.last()).index, key: (out@.last()).id, children: (*(out@.last()).v).model() }));
                assert(segment_seek_head_models(self.seek_head@.take(i + 1)) =~= segment_seek_head_models(self.seek_head@.take(i as int)).push(FieldModel::Node { id: 0x114D9B74, idx: (self.seek_head@[i as int]).index, key: (self.seek_head@[i as int]).id, children: (*(self.seek_head@[i as int]).v).model() }));
            }
            i += 1;
        }
        proof {
            assert(self.seek_head@.take(self.seek_head@.len() as int) =~= self.seek_head@);
        }
        out
    }

    /// A deep copy of the `info` slot.
    #[verifier::loop_isolation(false)]
    fn dup_info(&self) -> (r: Ebml<Info>)
        ensures
            seq![FieldModel::Node { id: 0x1549A966, idx: r.index, key: r.id, children: (*r.v).model() }] == seq![FieldModel::Node { id: 0x1549A966, idx: self.info.index, key: self.info.id, children: (*self.info.v).model() }],
    {
        let d = (&*self.info.v).duplicate();
        proof {
            reveal(Info::model);
            assert(d.model() == (*self.info.v).model());
        }
        Ebml { index: self.info.index, v: Box::new(d), id: self.info.id }
    }

    /// A deep copy of the `cluster` slot.
    #[verifier::loop_isolation(false)]
    fn dup_cluster(&self) -> (r: Vec<Ebml<Cluster>>)
        ensures
            segment_cluster_models(r@) == segment_cluster_models(self.cluster@),
    {
        let mut out: Vec<Ebml<Cluster>> = Vec::new();
        let mut i: usize = 0;
        while i < self.cluster.len()
            invariant
                i <= self.cluster@.len(),
                segment_cluster_models(out@) == segment_cluster_models(self.cluster@.take(i as int)),
            decreases self.cluster@.len() - i,
        {
            let e = &self.cluster[i];
            let d = (&*e.v).duplicate();
            proof {
                reveal(Cluster::model);
                assert(d.model() == (*e.v).model());
            }
            let ghost prevo = out@;
            out.push(Ebml { index: e.index, v: Box::new(d), id: e.id });
            proof {
                assert(self.cluster@.take(i + 1) =~= self.cluster@.take(i as int).push(self.cluster@[i as int]));
                assert(out@.drop_last() =~= prevo);
                assert(self.cluster@.take(i + 1).drop_last() =~= self.cluster@.take(i as int));
                assert(FieldModel::Node { id: 0x1F43B675, idx: (out@.last()).index, key: (out@.last()).id, children: (*(out@.last()).v).model() } == FieldModel::Node { id: 0x1F43B675, idx: (self.cluster@[i as int]).index, key: (self.cluster@[i as int]).id, children: (*(self.cluster@[i as int]).v).model() });
                assert(segment_cluster_models(out@) =~= segment_cluster_models(prevo).push(FieldModel::Node { id: 0x1F43B675, idx: (out@.last()).index, key: (out@.last()).id, children: (*(out@.last()).v).model() }));
                assert(segment_cluster_models(self.cluster@.take(i + 1)) =~= segment_cluster_models(self.cluster@.take(i as int)).push(FieldModel::Node { id: 0x1F43B675, idx: (self.cluster@[i as int]).index, key: (self.cluster@[i as int]).id, children: (*(self.cluster@[i as int]).v).model() }));
            }
            i += 1;
        }
        proof {
            assert(self.cluster@.take(self.cluster@.len() as int) =~= self.cluster@);
        }
        out
    }

    /// A deep copy of the `tracks` slot.
    #[verifier::loop_isolation(false)]
    fn dup_tracks(&self) -> (r: Option<Ebml<Tracks>>)
        ensures
            (match &r { Some(e) => seq![FieldModel::Node { id: 0x1654AE6B, idx: e.index, key: e.id, children: (*e.v).model() }], None => Seq::empty() }) == (match &self.tracks { Some(e) => seq![FieldModel::Node { id: 0x1654AE6B, idx: e.index, key: e.id, children: (*e.v).model() }], None => Seq::empty() }),
    {
        match &self.tracks {
            Some(e) => {
                let d = (&*e.v).duplicate();
                proof {
                    reveal(Tracks::model);
                    assert(d.model() == (*e.v).model());
                }
                Some(Ebml { index: e.index, v: Box::new(d), id: e.id })
            },
            None => None,
        }
    }

    /// A deep copy of the `cues` slot.
    #[verifier::loop_isolation(false)]
    fn dup_cues(&self) -> (r: Option<Ebml<Cues>>)
        ensures
            (match &r { Some(e) => seq![FieldModel::Node { id: 0x1C53BB6B, idx: e.index, key: e.id, children: (*e.v).model() }], None => Seq::empty() }) == (match &self.cues { Some(e) => seq![FieldModel::Node { id: 0x1C53BB6B, idx: e.index, key: e.id, children: (*e.v).model() }], None => Seq::empty() }),
    {
        match &self.cues {
            Some(e) => {
                let d = (&*e.v).duplicate();
                proof {
                    reveal(Cues::model);
                    assert(d.model() == (*e.v).model());
                }
                Some(Ebml { index: e.index, v: Box::new(d), id: e.id })
            },
            None => None,
        }
    }

    /// A deep copy of the `attachments` slot.
    #[verifier::loop_isolation(false)]
    fn dup_attachments(&self) -> (r: Option<Ebml<Attachments>>)
        ensures
            (match &r { Some(e) => seq![FieldModel::Node { id: 0x1941A469, idx: e.index, key: e.id, children: (*e.v).model() }], None => Seq::empty() }) == (match &self.attachments { Some(e) => seq![FieldModel::Node { id: 0x1941A469, idx: e.index, key: e.id, children: (*e.v).model() }], None => Seq::empty() }),
    {
        match &self.attachments {
            Some(e) => {
                let d = (&*e.v).duplicate();
                proof {
                    reveal(Attachments::model);
                    assert(d.model() == (*e.v).model());
                }
                Some(Ebml { index: e.index, v: Box::new(d), id: e.id })
            },
            None => None,
        }
    }

    /// A deep copy of the `chapters` slot.
    #[verifier::loop_isolation(false)]
    fn dup_chapters(&self) -> (r: Option<Ebml<Chapters>>)
        ensures
            (match &r { Some(e) => seq![FieldModel::Node { id: 0x1043A770, idx: e.index, key: e.id, children: (*e.v).model() }], None => Seq::empty() }) == (match &self.chapters { Some(e) => seq![FieldModel::Node { id: 0x1043A770, idx: e.index, key: e.id, children: (*e.v).model() }], None => Seq::empty() }),
    {
        match &self.chapters {
            Some(e) => {
                let d = (&*e.v).duplicate();
                proof {
                    reveal(Chapters::model);
                    assert(d.model() == (*e.v).model());
                }
                Some(Ebml { index: e.index, v: Box::new(d), id: e.id })
            },
            None => None,
        }
    }

    /// A deep copy of the `tags` slot.
    #[verifier::loop_isolation(false)]
    fn dup_tags(&self) -> (r: Vec<Ebml<Tags>>)
        ensures
            segment_tags_models(r@) == segment_tags_models(self.tags@),
    {
        let mut out: Vec<Ebml<Tags>> = Vec::new();
        let mut i: usize = 0;
        while i < self.tags.len()
            invariant
                i <= self.tags@.len(),
                segment_tags_models(out@) == segment_tags_models(self.tags@.take(i as int)),
            decreases self.tags@.len() - i,
        {
            let e = &self.tags[i];
            let d = (&*e.v).duplicate();
            proof {
                reveal(Tags::model);
                assert(d.model() == (*e.v).model());
            }
            let ghost prevo = out@;
            out.push(Ebml { index: e.index, v: Box::new(d), id: e.id });
            proof {
                assert(self.tags@.take(i + 1) =~= self.tags@.take(i as int).push(self.tags@[i as int]));
                assert(out@.drop_last() =~= prevo);
                assert(self.tags@.take(i + 1).drop_last() =~= self.tags@.take(i as int));
                assert(FieldModel::Node { id: 0x1254C367, idx: (out@.last()).index, key: (out@.last()).id, children: (*(out@.last()).v).model() } == FieldModel::Node { id: 0x1254C367, idx: (self.tags@[i as int]).index, key: (self.tags@[i as int]).id, children: (*(self.tags@[i as int]).v).model() });
                assert(segment_tags_models(out@) =~= segment_tags_models(prevo).push(FieldModel::Node { id: 0x1254C367, idx: (out@.last()).index, key: (out@.last()).id, children: (*(out@.last()).v).model() }));
                assert(segment_tags_models(self.tags@.take(i + 1)) =~= segment_tags_models(self.tags@.take(i as int)).push(FieldModel::Node { id: 0x1254C367, idx: (self.tags@[i as int]).index, key: (self.tags@[i as int]).id, children: (*(self.tags@[i as int]).v).model() }));
            }
            i += 1;
        }
        proof {
            assert(self.tags@.take(self.tags@.len() as int) =~= self.tags@);
        }
        out
    }

    /// A deep copy with the same children, positions, and keys.
    #[verifier::rlimit(100)]
    #[verifier::spinoff_prover]
    pub fn duplicate(&self) -> (r: Self)
        ensures
            r.raw_model() == self.raw_model(),
            r.size == self.size,
    {
        let r = Segment {
            size: self.size,
            void: self.dup_void(),
            crc_32: self.dup_crc_32(),
            seek_head: self.dup_seek_head(),
            info: self.dup_info(),
            cluster: self.dup_cluster(),
            tracks: self.dup_tracks(),
            cues: self.dup_cues(),
            attachments: self.dup_attachments(),
            chapters: self.dup_chapters(),
            tags: self.dup_tags(),
        };
        proof {
            reveal(Segment::raw_model);
            assert(r.raw_model() == self.raw_model());
        }
        r
    }
}

impl Segment {
    /// Serialise the whole element: body to a scratch buffer first, then
    /// the header with the now-known length, then the body.
    pub fn write_blocking(&self, w: &mut Vec<u8>) -> (r: Result<usize, MatroskaError>)
        ensures
            r is Ok <==> body_ok_rec(self.model()) && cat_bytes(self.model()).len() < 0xFFFFFFFFFFFFFF,
            r is Ok ==> final(w)@ == old(w)@ + node_frame_bytes(0x18538067, cat_bytes(self.model()))
                && r->Ok_0 == node_frame_bytes(0x18538067, cat_bytes(self.model())).len(),
            r is Err ==> final(w)@ == old(w)@ && r->Err_0 is InvalidVarIntMoreThanVintMax,
    {
        let mut buf: Vec<u8> = Vec::new();
        match self.write_body_blocking(&mut buf) {
            Ok(_) => {},
            Err(e) => {
                return Err(e);
            },
        }
        let start = w.len();
        match crate::io::write_element_id_size(w, 0x18538067, buf.len() as u64) {
            Ok(_) => {},
            Err(e) => {
                return Err(e);
            },
        }
        w.append(&mut buf);
        Ok(w.len() - start)
    }

    /// Write this element's header with the given body size.
    pub fn write_header_blocking(&self, w: &mut Vec<u8>, size: u64) -> (r: Result<usize, MatroskaError>)
        ensures
            r is Ok <==> crate::io::size_encodable(size),
            r is Ok ==> final(w)@ == old(w)@ + crate::io::header_bytes(0x18538067, size)
                && r->Ok_0 == crate::io::header_bytes(0x18538067, size).len(),
            r is Err ==> final(w)@ == old(w)@ && r->Err_0 is InvalidVarIntMoreThanVintMax,
    {
        crate::io::write_element_id_size(w, 0x18538067, size)
    }

    /// Write the body: every present child, in emission order.
    #[verifier::loop_isolation(false)]
    #[verifier::rlimit(60)]
    #[verifier::spinoff_prover]
    pub fn write_body_blocking(&self, w: &mut Vec<u8>) -> (r: Result<usize, MatroskaError>)
        ensures
            r is Ok <==> body_ok_rec(self.model()),
            r is Ok ==> final(w)@ == old(w)@ + cat_bytes(self.model())
                && r->Ok_0 == cat_bytes(self.model()).len(),
            r is Err ==> r->Err_0 is InvalidVarIntMoreThanVintMax,
    {
        let fields = self.elements();
        let start = w.len();
        let ghost ms = self.model();
        let mut i: usize = 0;
        while i < fields.len()
            invariant
                i <= fields@.len(),
                models_of::<SegmentFields>(fields@) == ms,
                w@ == old(w)@ + cat_bytes(ms.take(i as int)),
                body_ok_rec(ms.take(i as int)),
            decreases fields@.len() - i,
        {
            proof {
                assert(models_of::<SegmentFields>(fields@)[i as int] == ms[i as int]);
            }
            match fields[i].write_el(w) {
                Ok(_) => {},
                Err(e) => {
                    proof {
                        lemma_body_ok_forall(ms);
                    }
                    return Err(e);
                },
            }
            proof {
                assert(ms.take(i + 1) =~= ms.take(i as int).push(ms[i as int]));
                lemma_cat_snoc(ms.take(i as int), ms[i as int]);
            }
            i += 1;
        }
        proof {
            assert(ms.take(ms.len() as int) =~= ms);
            lemma_body_ok_forall(ms);
        }
        Ok(w.len() - start)
    }
}

/// One present child of a `Segment`, paired with its value.
#[derive(Debug)]
pub enum SegmentFields {
    Void(Ebml<Vec<u8>>),
    Crc32(Ebml<Vec<u8>>),
    SeekHead(Ebml<SeekHead>),
    Info(Ebml<Info>),
    Cluster(Ebml<Cluster>),
    Tracks(Ebml<Tracks>),
    Cues(Ebml<Cues>),
    Attachments(Ebml<Attachments>),
    Chapters(Ebml<Chapters>),
    Tags(Ebml<Tags>),
}

impl SegmentFields {
    /// The child's element ID and its two ordering slots.
    #[verifier::rlimit(60)]
    #[verifier::spinoff_prover]
    pub fn index(&self) -> (r: (EbmlId, Option<u64>, u64))
        ensures
            r.0.spec_u64() == self.model().eid(),
            r.1 == self.model().idx(),
            r.2 == self.model().key(),
    {
        match self {
            Self::Void(val) => (EbmlId::Void, val.index, val.id),
            Self::Crc32(val) => (EbmlId::Crc32, val.index, val.id),
            Self::SeekHead(val) => (EbmlId::SeekHead, val.index, val.id),
            Self::Info(val) => (EbmlId::Info, val.index, val.id),
            Self::Cluster(val) => (EbmlId::Cluster, val.index, val.id),
            Self::Tracks(val) => (EbmlId::Tracks, val.index, val.id),
            Self::Cues(val) => (EbmlId::Cues, val.index, val.id),
            Self::Attachments(val) => (EbmlId::Attachments, val.index, val.id),
            Self::Chapters(val) => (EbmlId::Chapters, val.index, val.id),
            Self::Tags(val) => (EbmlId::Tags, val.index, val.id),
        }
    }

    /// Write this child's frame.
    #[verifier::rlimit(60)]
    #[verifier::spinoff_prover]
    pub fn write_el(&self, w: &mut Vec<u8>) -> (r: Result<usize, MatroskaError>)
        ensures
            r is Ok <==> el_ok(self.model()),
            r is Ok ==> final(w)@ == old(w)@ + el_bytes(self.model())
                && r->Ok_0 == el_bytes(self.model()).len(),
            r is Err ==> final(w)@ == old(w)@ && r->Err_0 is InvalidVarIntMoreThanVintMax,
    {
        match self {
            Self::Void(val) => crate::io::write_el_bin(w, 0xEC, (*val.v).as_slice()),
            Self::Crc32(val) => crate::io::write_el_bin(w, 0xBF, (*val.v).as_slice()),
            Self::SeekHead(val) => (*val.v).write_blocking(w),
            Self::Info(val) => (*val.v).write_blocking(w),
            Self::Cluster(val) => (*val.v).write_blocking(w),
            Self::Tracks(val) => (*val.v).write_blocking(w),
            Self::Cues(val) => (*val.v).write_blocking(w),
            Self::Attachments(val) => (*val.v).write_blocking(w),
            Self::Chapters(val) => (*val.v).write_blocking(w),
            Self::Tags(val) => (*val.v).write_blocking(w),
        }
    }
}

impl EbmlField for SegmentFields {
    open spec fn model(&self) -> FieldModel {
        match self {
            Self::Void(e) => FieldModel::Bin { id: 0xEC, idx: e.index, key: e.id, b: (*e.v)@ },
            Self::Crc32(e) => FieldModel::Bin { id: 0xBF, idx: e.index, key: e.id, b: (*e.v)@ },
            Self::SeekHead(e) => FieldModel::Node { id: 0x114D9B74, idx: e.index, key: e.id, children: (*e.v).model() },
            Self::Info(e) => FieldModel::Node { id: 0x1549A966, idx: e.index, key: e.id, children: (*e.v).model() },
            Self::Cluster(e) => FieldModel::Node { id: 0x1F43B675, idx: e.index, key: e.id, children: (*e.v).model() },
            Self::Tracks(e) => FieldModel::Node { id: 0x1654AE6B, idx: e.index, key: e.id, children: (*e.v).model() },
            Self::Cues(e) => FieldModel::Node { id: 0x1C53BB6B, idx: e.index, key: e.id, children: (*e.v).model() },
            Self::Attachments(e) => FieldModel::Node { id: 0x1941A469, idx: e.index, key: e.id, children: (*e.v).model() },
            Self::Chapters(e) => FieldModel::Node { id: 0x1043A770, idx: e.index, key: e.id, children: (*e.v).model() },
            Self::Tags(e) => FieldModel::Node { id: 0x1254C367, idx: e.index, key: e.id, children: (*e.v).model() },
        }
    }

    fn sort_key(&self) -> (r: (Option<u64>, u64)) {
        match self {
            Self::Void(e) => (e.index, e.id),
            Self::Crc32(e) => (e.index, e.id),
            Self::SeekHead(e) => (e.index, e.id),
            Self::Info(e) => (e.index, e.id),
            Self::Cluster(e) => (e.index, e.id),
            Self::Tracks(e) => (e.index, e.id),
            Self::Cues(e) => (e.index, e.id),
            Self::Attachments(e) => (e.index, e.id),
            Self::Chapters(e) => (e.index, e.id),
            Self::Tags(e) => (e.index, e.id),
        }
    }
}

/// The `SeekHead` structural element.
#[derive(Debug)]
pub struct SeekHead {
    pub size: u64,
    pub seek: Vec<Ebml<Seek>>,
}

/// The models of the `seek` children of a `SeekHead`.
pub open spec fn seekhead_seek_models(s: Seq<Ebml<Seek>>) -> Seq<FieldModel> {
    s.map_values(|e: Ebml<Seek>| FieldModel::Node { id: 0x4DBB, idx: e.index, key: e.id, children: (*e.v).model() })
}

impl SeekHead {
    /// The models of the children, in declaration order.
    #[verifier::opaque]
    pub open spec fn raw_model(self) -> Seq<FieldModel>
    {
        seekhead_seek_models(self.seek@)
    }

    /// The children in emission order.
    #[verifier::opaque]
    pub open spec fn model(self) -> Seq<FieldModel>
    {
        sort_fields_spec(self.raw_model())
    }

    /// Append the `seek` child values to a field run.
    #[verifier::loop_isolation(false)]
    fn push_seek(&self, v: &mut Vec<SeekHeadFields>)
        ensures
            models_of::<SeekHeadFields>(final(v)@) == models_of::<SeekHeadFields>(old(v)@) + seekhead_seek_models(self.seek@),
    {
        let ghost base = models_of::<SeekHeadFields>(v@);
        let mut i: usize = 0;
        while i < self.seek.len()
            invariant
                i <= self.seek@.len(),
                models_of::<SeekHeadFields>(v@) == base + seekhead_seek_models(self.seek@.take(i as int)),
            decreases self.seek@.len() - i,
        {
            let e = &self.seek[i];
            let d = (&*e.v).duplicate();
            proof {
                reveal(Seek::model);
                assert(d.model() == (*e.v).model());
            }
            let ghost prevv = v@;
            v.push(SeekHeadFields::Seek(Ebml { index: e.index, v: Box::new(d), id: e.id }));
            proof {
                assert(self.seek@.take(i + 1) =~= self.seek@.take(i as int).push(self.seek@[i as int]));
                assert(models_of::<SeekHeadFields>(v@) =~= models_of::<SeekHeadFields>(prevv).push(v@.last().model()));
                assert(seekhead_seek_models(self.seek@.take(i + 1)) =~= seekhead_seek_models(self.seek@.take(i as int)).push(v@.last().model()));
                assert(base + seekhead_seek_models(self.seek@.take(i + 1)) =~= (base + seekhead_seek_models(self.seek@.take(i as int))).push(v@.last().model()));
            }
            i += 1;
        }
        proof {
            assert(self.seek@.take(self.seek@.len() as int) =~= self.seek@);
        }
    }

    /// The present children, each paired with its ID, in emission order.
    #[verifier::rlimit(100)]
    #[verifier::spinoff_prover]
    pub fn elements(&self) -> (r: Vec<SeekHeadFields>)
        ensures
            models_of::<SeekHeadFields>(r@) == self.model(),
    {
        let mut v: Vec<SeekHeadFields> = Vec::new();
        proof {
            assert(models_of::<SeekHeadFields>(v@) =~= Seq::<FieldModel>::empty());
        }
        self.push_seek(&mut v);
        proof {
            reveal(SeekHead::raw_model);
            reveal(SeekHead::model);
            assert(Seq::<FieldModel>::empty() + seekhead_seek_models(self.seek@) =~= seekhead_seek_models(self.seek@));
            assert(models_of::<SeekHeadFields>(v@) == self.raw_model());
        }
        sort_fields(v)
    }

    /// A deep copy of the `seek` slot.
    #[verifier::loop_isolation(false)]
    fn dup_seek(&self) -> (r: Vec<Ebml<Seek>>)
        ensures
            seekhead_seek_models(r@) == seekhead_seek_models(self.seek@),
    {
        let mut out: Vec<Ebml<Seek>> = Vec::new();
        let mut i: usize = 0;
        while i < self.seek.len()
            invariant
                i <= self.seek@.len(),
                seekhead_seek_models(out@) == seekhead_seek_models(self.seek@.take(i as int)),
            decreases self.seek@.len() - i,
        {
            let e = &self.seek[i];
            let d = (&*e.v).duplicate();
            proof {
                reveal(Seek::model);
                assert(d.model() == (*e.v).model());
            }
            let ghost prevo = out@;
            out.push(Ebml { index: e.index, v: Box::new(d), id: e.id });
            proof {
                assert(self.seek@.take(i + 1) =~= self.seek@.take(i as int).push(self.seek@[i as int]));
                assert(out@.drop_last() =~= prevo);
                assert(self.seek@.take(i + 1).drop_last() =~= self.seek@.take(i as int));
                assert(FieldModel::Node { id: 0x4DBB, idx: (out@.last()).index, key: (out@.last()).id, children: (*(out@.last()).v).model() } == FieldModel::Node { id: 0x4DBB, idx: (self.seek@[i as int]).index, key: (self.seek@[i as int]).id, children: (*(self.seek@[i as int]).v).model() });
                assert(seekhead_seek_models(out@) =~= seekhead_seek_models(prevo).push(FieldModel::Node { id: 0x4DBB, idx: (out@.last()).index, key: (out@.last()).id, children: (*(out@.last()).v).model() }));
                assert(seekhead_seek_models(self.seek@.take(i + 1)) =~= seekhead_seek_models(self.seek@.take(i as int)).push(FieldModel::Node { id: 0x4DBB, idx: (self.seek@[i as int]).index, key: (self.seek@[i as int]).id, children: (*(self.seek@[i as int]).v).model() }));
            }
            i += 1;
        }
        proof {
            assert(self.seek@.take(self.seek@.len() as int) =~= self.seek@);
        }
        out
    }

    /// A deep copy with the same children, positions, and keys.
    #[verifier::rlimit(100)]
    #[verifier::spinoff_prover]
    pub fn duplicate(&self) -> (r: Self)
        ensures
            r.raw_model() == self.raw_model(),
            r.size == self.size,
    {
        let r = SeekHead {
            size: self.size,
            seek: self.dup_seek(),
        };
        proof {
            reveal(SeekHead::raw_model);
            assert(r.raw_model() == self.raw_model());
        }
        r
    }
}

impl SeekHead {
    /// Serialise the whole element: body to a scratch buffer first, then
    /// the header with the now-known length, then the body.
    pub fn write_blocking(&self, w: &mut Vec<u8>) -> (r: Result<usize, MatroskaError>)
        ensures
            r is Ok <==> body_ok_rec(self.model()) && cat_bytes(self.model()).len() < 0xFFFFFFFFFFFFFF,
            r is Ok ==> final(w)@ == old(w)@ + node_frame_bytes(0x114D9B74, cat_bytes(self.model()))
                && r->Ok_0 == node_frame_bytes(0x114D9B74, cat_bytes(self.model())).len(),
            r is Err ==> final(w)@ == old(w)@ && r->Err_0 is InvalidVarIntMoreThanVintMax,
    {
        let mut buf: Vec<u8> = Vec::new();
        match self.write_body_blocking(&mut buf) {
            Ok(_) => {},
            Err(e) => {
                return Err(e);
            },
        }
        let start = w.len();
        match crate::io::write_element_id_size(w, 0x114D9B74, buf.len() as u64) {
            Ok(_) => {},
            Err(e) => {
                return Err(e);
            },
        }
        w.append(&mut buf);
        Ok(w.len() - start)
    }

    /// Write this element's header with the given body size.
    pub fn write_header_blocking(&self, w: &mut Vec<u8>, size: u64) -> (r: Result<usize, MatroskaError>)
        ensures
            r is Ok <==> crate::io::size_encodable(size),
            r is Ok ==> final(w)@ == old(w)@ + crate::io::header_bytes(0x114D9B74, size)
                && r->Ok_0 == crate::io::header_bytes(0x114D9B74, size).len(),
            r is Err ==> final(w)@ == old(w)@ && r->Err_0 is InvalidVarIntMoreThanVintMax,
    {
        crate::io::write_element_id_size(w, 0x114D9B74, size)
    }

    /// Write the body: every present child, in emission order.
    #[verifier::loop_isolation(false)]
    #[verifier::rlimit(60)]
    #[verifier::spinoff_prover]
    pub fn write_body_blocking(&self, w: &mut Vec<u8>) -> (r: Result<usize, MatroskaError>)
        ensures
            r is Ok <==> body_ok_rec(self.model()),
            r is Ok ==> final(w)@ == old(w)@ + cat_bytes(self.model())
                && r->Ok_0 == cat_bytes(self.model()).len(),
            r is Err ==> r->Err_0 is InvalidVarIntMoreThanVintMax,
    {
        let fields = self.elements();
        let start = w.len();
        let ghost ms = self.model();
        let mut i: usize = 0;
        while i < fields.len()
            invariant
                i <= fields@.len(),
                models_of::<SeekHeadFields>(fields@) == ms,
                w@ == old(w)@ + cat_bytes(ms.take(i as int)),
                body_ok_rec(ms.take(i as int)),
            decreases fields@.len() - i,
        {
            proof {
                assert(models_of::<SeekHeadFields>(fields@)[i as int] == ms[i as int]);
            }
            match fields[i].write_el(w) {
                Ok(_) => {},
                Err(e) => {
                    proof {
                        lemma_body_ok_forall(ms);
                    }
                    return Err(e);
                },
            }
            proof {
                assert(ms.take(i + 1) =~= ms.take(i as int).push(ms[i as int]));
                lemma_cat_snoc(ms.take(i as int), ms[i as int]);
            }
            i += 1;
        }
        proof {
            assert(ms.take(ms.len() as int) =~= ms);
            lemma_body_ok_forall(ms);
        }
        Ok(w.len() - start)
    }
}

/// One present child of a `SeekHead`, paired with its value.
#[derive(Debug)]
pub enum SeekHeadFields {
    Seek(Ebml<Seek>),
}

impl SeekHeadFields {
    /// The child's element ID and its two ordering slots.
    #[verifier::rlimit(60)]
    #[verifier::spinoff_prover]
    pub fn index(&self) -> (r: (EbmlId, Option<u64>, u64))
        ensures
            r.0.spec_u64() == self.model().eid(),
            r.1 == self.model().idx(),
            r.2 == self.model().key(),
    {
        match self {
            Self::Seek(val) => (EbmlId::Seek, val.index, val.id),
        }
    }

    /// Write this child's frame.
    #[verifier::rlimit(60)]
    #[verifier::spinoff_prover]
    pub fn write_el(&self, w: &mut Vec<u8>) -> (r: Result<usize, MatroskaError>)
        ensures
            r is Ok <==> el_ok(self.model()),
            r is Ok ==> final(w)@ == old(w)@ + el_bytes(self.model())
                && r->Ok_0 == el_bytes(self.model()).len(),
            r is Err ==> final(w)@ == old(w)@ && r->Err_0 is InvalidVarIntMoreThanVintMax,
    {
        match self {
            Self::Seek(val) => (*val.v).write_blocking(w),
        }
    }
}

impl EbmlField for SeekHeadFields {
    open spec fn model(&self) -> FieldModel {
        match self {
            Self::Seek(e) => FieldModel::Node { id: 0x4DBB, idx: e.index, key: e.id, children: (*e.v).model() },
        }
    }

    fn sort_key(&self) -> (r: (Option<u64>, u64)) {
        match self {
            Self::Seek(e) => (e.index, e.id),
        }
    }
}

/// The `Seek` structural element.
#[derive(Debug)]
pub struct Seek {
    pub size: u64,
    pub seek_id: Ebml<Vec<u8>>,
    pub seek_position: Ebml<u64>,
}

impl Seek {
    /// The models of the children, in declaration order.
    #[verifier::opaque]
    pub open spec fn raw_model(self) -> Seq<FieldModel>
    {
        seq![FieldModel::Bin { id: 0x53AB, idx: self.seek_id.index, key: self.seek_id.id, b: (*self.seek_id.v)@ }]
            + seq![FieldModel::UInt { id: 0x53AC, idx: self.seek_position.index, key: self.seek_position.id, v: *self.seek_position.v }]
    }

    /// The children in emission order.
    #[verifier::opaque]
    pub open spec fn model(self) -> Seq<FieldModel>
    {
        sort_fields_spec(self.raw_model())
    }

    /// Append the `seek_id` child values to a field run.
    #[verifier::loop_isolation(false)]
    fn push_seek_id(&self, v: &mut Vec<SeekFields>)
        ensures
            models_of::<SeekFields>(final(v)@) == models_of::<SeekFields>(old(v)@) + seq![FieldModel::Bin { id: 0x53AB, idx: self.seek_id.index, key: self.seek_id.id, b: (*self.seek_id.v)@ }],
    {
        let ghost prevv = v@;
        v.push(SeekFields::SeekId(crate::dup_ebml_bytes(&self.seek_id)));
        proof {
            assert(models_of::<SeekFields>(v@) =~= models_of::<SeekFields>(prevv).push(v@.last().model()));
            assert(models_of::<SeekFields>(prevv).push(v@.last().model()) =~= models_of::<SeekFields>(prevv) + seq![FieldModel::Bin { id: 0x53AB, idx: self.seek_id.index, key: self.seek_id.id, b: (*self.seek_id.v)@ }]);
        }
    }

    /// Append the `seek_position` child values to a field run.
    #[verifier::loop_isolation(false)]
    fn push_seek_position(&self, v: &mut Vec<SeekFields>)
        ensures
            models_of::<SeekFields>(final(v)@) == models_of::<SeekFields>(old(v)@) + seq![FieldModel::UInt { id: 0x53AC, idx: self.seek_position.index, key: self.seek_position.id, v: *self.seek_position.v }],
    {
        let ghost prevv = v@;
        v.push(SeekFields::SeekPosition(crate::dup_ebml_copy(&self.seek_position)));
        proof {
            assert(models_of::<SeekFields>(v@) =~= models_of::<SeekFields>(prevv).push(v@.last().model()));
            assert(models_of::<SeekFields>(prevv).push(v@.last().model()) =~= models_of::<SeekFields>(prevv) + seq![FieldModel::UInt { id: 0x53AC, idx: self.seek_position.index, key: self.seek_position.id, v: *self.seek_position.v }]);
        }
    }

    /// The present children, each paired with its ID, in emission order.
    #[verifier::rlimit(100)]
    #[verifier::spinoff_prover]
    pub fn elements(&self) -> (r: Vec<SeekFields>)
        ensures
            models_of::<SeekFields>(r@) == self.model(),
    {
        let mut v: Vec<SeekFields> = Vec::new();
        proof {
            assert(models_of::<SeekFields>(v@) =~= Seq::<FieldModel>::empty());
        }
        self.push_seek_id(&mut v);
        self.push_seek_position(&mut v);
        proof {
            reveal(Seek::raw_model);
            reveal(Seek::model);
            assert(Seq::<FieldModel>::empty() + seq![FieldModel::Bin { id: 0x53AB, idx: self.seek_id.index, key: self.seek_id.id, b: (*self.seek_id.v)@ }] =~= seq![FieldModel::Bin { id: 0x53AB, idx: self.seek_id.index, key: self.seek_id.id, b: (*self.seek_id.v)@ }]);
            assert(models_of::<SeekFields>(v@) == self.raw_model());
        }
        sort_fields(v)
    }

    /// A deep copy of the `seek_id` slot.
    #[verifier::loop_isolation(false)]
    fn dup_seek_id(&self) -> (r: Ebml<Vec<u8>>)
        ensures
            seq![FieldModel::Bin { id: 0x53AB, idx: r.index, key: r.id, b: (*r.v)@ }] == seq![FieldModel::Bin { id: 0x53AB, idx: self.seek_id.index, key: self.seek_id.id, b: (*self.seek_id.v)@ }],
    {
        crate::dup_ebml_bytes(&self.seek_id)
    }

    /// A deep copy of the `seek_position` slot.
    #[verifier::loop_isolation(false)]
    fn dup_seek_position(&self) -> (r: Ebml<u64>)
        ensures
            seq![FieldModel::UInt { id: 0x53AC, idx: r.index, key: r.id, v: *r.v }] == seq![FieldModel::UInt { id: 0x53AC, idx: self.seek_position.index, key: self.seek_position.id, v: *self.seek_position.v }],
    {
        crate::dup_ebml_copy(&self.seek_position)
    }

    /// A deep copy with the same children, positions, and keys.
    #[verifier::rlimit(100)]
    #[verifier::spinoff_prover]
    pub fn duplicate(&self) -> (r: Self)
        ensures
            r.raw_model() == self.raw_model(),
            r.size == self.size,
    {
        let r = Seek {
            size: self.size,
            seek_id: self.dup_seek_id(),
            seek_position: self.dup_seek_position(),
        };
        proof {
            reveal(Seek::raw_model);
            assert(r.raw_model() == self.raw_model());
        }
        r
    }
}

impl Seek {
    /// Serialise the whole element: body to a scratch buffer first, then
    /// the header with the now-known length, then the body.
    pub fn write_blocking(&self, w: &mut Vec<u8>) -> (r: Result<usize, MatroskaError>)
        ensures
            r is Ok <==> body_ok_rec(self.model()) && cat_bytes(self.model()).len() < 0xFFFFFFFFFFFFFF,
            r is Ok ==> final(w)@ == old(w)@ + node_frame_bytes(0x4DBB, cat_bytes(self.model()))
                && r->Ok_0 == node_frame_bytes(0x4DBB, cat_bytes(self.model())).len(),
            r is Err ==> final(w)@ == old(w)@ && r->Err_0 is InvalidVarIntMoreThanVintMax,
    {
        let mut buf: Vec<u8> = Vec::new();
        match self.write_body_blocking(&mut buf) {
            Ok(_) => {},
            Err(e) => {
                return Err(e);
            },
        }
        let start = w.len();
        match crate::io::write_element_id_size(w, 0x4DBB, buf.len() as u64) {
            Ok(_) => {},
            Err(e) => {
                return Err(e);
            },
        }
        w.append(&mut buf);
        Ok(w.len() - start)
    }

    /// Write this element's header with the given body size.
    pub fn write_header_blocking(&self, w: &mut Vec<u8>, size: u64) -> (r: Result<usize, MatroskaError>)
        ensures
            r is Ok <==> crate::io::size_encodable(size),
            r is Ok ==> final(w)@ == old(w)@ + crate::io::header_bytes(0x4DBB, size)
                && r->Ok_0 == crate::io::header_bytes(0x4DBB, size).len(),
            r is Err ==> final(w)@ == old(w)@ && r->Err_0 is InvalidVarIntMoreThanVintMax,
    {
        crate::io::write_element_id_size(w, 0x4DBB, size)
    }

    /// Write the body: every present child, in emission order.
    #[verifier::loop_isolation(false)]
    #[verifier::rlimit(60)]
    #[verifier::spinoff_prover]
    pub fn write_body_blocking(&self, w: &mut Vec<u8>) -> (r: Result<usize, MatroskaError>)
        ensures
            r is Ok <==> body_ok_rec(self.model()),
            r is Ok ==> final(w)@ == old(w)@ + cat_bytes(self.model())
                && r->Ok_0 == cat_bytes(self.model()).len(),
            r is Err ==> r->Err_0 is InvalidVarIntMoreThanVintMax,
    {
        let fields = self.elements();
        let start = w.len();
        let ghost ms = self.model();
        let mut i: usize = 0;
        while i < fields.len()
            invariant
                i <= fields@.len(),
                models_of::<SeekFields>(fields@) == ms,
                w@ == old(w)@ + cat_bytes(ms.take(i as int)),
                body_ok_rec(ms.take(i as int)),
            decreases fields@.len() - i,
        {
            proof {
                assert(models_of::<SeekFields>(fields@)[i as int] == ms[i as int]);
            }
            match fields[i].write_el(w) {
                Ok(_) => {},
                Err(e) => {
                    proof {
                        lemma_body_ok_forall(ms);
                    }
                    return Err(e);
                },
            }
            proof {
                assert(ms.take(i + 1) =~= ms.take(i as int).push(ms[i as int]));
                lemma_cat_snoc(ms.take(i as int), ms[i as int]);
            }
            i += 1;
        }
        proof {
            assert(ms.take(ms.len() as int) =~= ms);
            lemma_body_ok_forall(ms);
        }
        Ok(w.len() - start)
    }
}

/// One present child of a `Seek`, paired with its value.
#[derive(Debug)]
pub enum SeekFields {
    SeekId(Ebml<Vec<u8>>),
    SeekPosition(Ebml<u64>),
}

impl SeekFields {
    /// The child's element ID and its two ordering slots.
    #[verifier::rlimit(60)]
    #[verifier::spinoff_prover]
    pub fn index(&self) -> (r: (EbmlId, Option<u64>, u64))
        ensures
            r.0.spec_u64() == self.model().eid(),
            r.1 == self.model().idx(),
            r.2 == self.model().key(),
    {
        match self {
            Self::SeekId(val) => (EbmlId::SeekId, val.index, val.id),
            Self::SeekPosition(val) => (EbmlId::SeekPosition, val.index, val.id),
        }
    }

    /// Write this child's frame.
    #[verifier::rlimit(60)]
    #[verifier::spinoff_prover]
    pub fn write_el(&self, w: &mut Vec<u8>) -> (r: Result<usize, MatroskaError>)
        ensures
            r is Ok <==> el_ok(self.model()),
            r is Ok ==> final(w)@ == old(w)@ + el_bytes(self.model())
                && r->Ok_0 == el_bytes(self.model()).len(),
            r is Err ==> final(w)@ == old(w)@ && r->Err_0 is InvalidVarIntMoreThanVintMax,
    {
        match self {
            Self::SeekId(val) => crate::io::write_el_bin(w, 0x53AB, (*val.v).as_slice()),
            Self::SeekPosition(val) => crate::io::write_el_uint(w, 0x53AC, &*val.v),
        }
    }
}

impl EbmlField for SeekFields {
    open spec fn model(&self) -> FieldModel {
        match self {
            Self::SeekId(e) => FieldModel::Bin { id: 0x53AB, idx: e.index, key: e.id, b: (*e.v)@ },
            Self::SeekPosition(e) => FieldModel::UInt { id: 0x53AC, idx: e.index, key: e.id, v: *e.v },
        }
    }

    fn sort_key(&self) -> (r: (Option<u64>, u64)) {
        match self {
            Self::SeekId(e) => (e.index, e.id),
            Self::SeekPosition(e) => (e.index, e.id),
        }
    }
}

/// The `Info` structural element.
#[derive(Debug)]
pub struct Info {
    pub size: u64,
    pub segment_uuid: Option<Ebml<Vec<u8>>>,
    pub segment_filename: Option<Ebml<String>>,
    pub prev_uuid: Option<Ebml<Vec<u8>>>,
    pub prev_filename: Option<Ebml<String>>,
    pub next_uuid: Option<Ebml<Vec<u8>>>,
    pub next_filename: Option<Ebml<String>>,
    pub segment_family: Vec<Ebml<Vec<u8>>>,
    pub chapter_translate: Vec<Ebml<ChapterTranslate>>,
    pub timestamp_scale: Ebml<u64>,
    /// A float on the wire, held as its IEEE-754 f64 bit pattern; convert
    /// with `f64::to_bits` and `f64::from_bits`.
    pub duration: Option<Ebml<u64>>,
    pub date_utc: Option<Ebml<MkvDate>>,
    pub title: Option<Ebml<String>>,
    pub muxing_app: Ebml<String>,
    pub writing_app: Ebml<String>,
}

/// The models of the `segment_family` children of a `Info`.
pub open spec fn info_segment_family_models(s: Seq<Ebml<Vec<u8>>>) -> Seq<FieldModel> {
    s.map_values(|e: Ebml<Vec<u8>>| FieldModel::Bin { id: 0x4444, idx: e.index, key: e.id, b: (*e.v)@ })
}

/// The models of the `chapter_translate` children of a `Info`.
pub open spec fn info_chapter_translate_models(s: Seq<Ebml<ChapterTranslate>>) -> Seq<FieldModel> {
    s.map_values(|e: Ebml<ChapterTranslate>| FieldModel::Node { id: 0x6924, idx: e.index, key: e.id, children: (*e.v).model() })
}

impl Info {
    /// The models of the children, in declaration order.
    #[verifier::opaque]
    pub open spec fn raw_model(self) -> Seq<FieldModel>
    {
        (match self.segment_uuid { Some(e) => seq![FieldModel::Bin { id: 0x73A4, idx: e.index, key: e.id, b: (*e.v)@ }], None => Seq::empty() })
            + (match self.segment_filename { Some(e) => seq![FieldModel::Text { id: 0x7384, idx: e.index, key: e.id, s: (*e.v)@ }], None => Seq::empty() })
            + (match self.prev_uuid { Some(e) => seq![FieldModel::Bin { id: 0x3CB923, idx: e.index, key: e.id, b: (*e.v)@ }], None => Seq::empty() })
            + (match self.prev_filename { Some(e) => seq![FieldModel::Text { id: 0x3C83AB, idx: e.index, key: e.id, s: (*e.v)@ }], None => Seq::empty() })
            + (match self.next_uuid { Some(e) => seq![FieldModel::Bin { id: 0x3EB923, idx: e.index, key: e.id, b: (*e.v)@ }], None => Seq::empty() })
            + (match self.next_filename { Some(e) => seq![FieldModel::Text { id: 0x3E83BB, idx: e.index, key: e.id, s: (*e.v)@ }], None => Seq::empty() })
            + info_segment_family_models(self.segment_family@)
            + info_chapter_translate_models(self.chapter_translate@)
            + seq![FieldModel::UInt { id: 0x2AD7B1, idx: self.timestamp_scale.index, key: self.timestamp_scale.id, v: *self.timestamp_scale.v }]
            + (match self.duration { Some(e) => seq![FieldModel::Flt64 { id: 0x4489, idx: e.index, key: e.id, bits: *e.v }], None => Seq::empty() })
            + (match self.date_utc { Some(e) => seq![FieldModel::Date { id: 0x4461, idx: e.index, key: e.id, ns: (*e.v).ns }], None => Seq::empty() })
            + (match self.title { Some(e) => seq![FieldModel::Text { id: 0x7BA9, idx: e.index, key: e.id, s: (*e.v)@ }], None => Seq::empty() })
            + seq![FieldModel::Text { id: 0x4D80, idx: self.muxing_app.index, key: self.muxing_app.id, s: (*self.muxing_app.v)@ }]
            + seq![FieldModel::Text { id: 0x5741, idx: self.writing_app.index, key: self.writing_app.id, s: (*self.writing_app.v)@ }]
    }

    /// The children in emission order.
    #[verifier::opaque]
    pub open spec fn model(self) -> Seq<FieldModel>
    {
        sort_fields_spec(self.raw_model())
    }

    /// Append the `segment_uuid` child values to a field run.
    #[verifier::loop_isolation(false)]
    fn push_segment_uuid(&self, v: &mut Vec<InfoFields>)
        ensures
            models_of::<InfoFields>(final(v)@) == models_of::<InfoFields>(old(v)@) + (match &self.segment_uuid { Some(e) => seq![FieldModel::Bin { id: 0x73A4, idx: e.index, key: e.id, b: (*e.v)@ }], None => Seq::empty() }),
    {
        match &self.segment_uuid {
            Some(e) => {
                let ghost prevv = v@;
                v.push(InfoFields::SegmentUuid(crate::dup_ebml_bytes(e)));
                proof {
                    assert(models_of::<InfoFields>(v@) =~= models_of::<InfoFields>(prevv).push(v@.last().model()));
                    assert(models_of::<InfoFields>(prevv).push(v@.last().model()) =~= models_of::<InfoFields>(prevv) + (match &self.segment_uuid { Some(e) => seq![FieldModel::Bin { id: 0x73A4, idx: e.index, key: e.id, b: (*e.v)@ }], None => Seq::empty() }));
                }
            },
            None => {
                proof {
                    assert(models_of::<InfoFields>(v@) =~= models_of::<InfoFields>(v@) + (match &self.segment_uuid { Some(e) => seq![FieldModel::Bin { id: 0x73A4, idx: e.index, key: e.id, b: (*e.v)@ }], None => Seq::empty() }));
                }
            },
        }
    }

    /// Append the `segment_filename` child values to a field run.
    #[verifier::loop_isolation(false)]
    fn push_segment_filename(&self, v: &mut Vec<InfoFields>)
        ensures
            models_of::<InfoFields>(final(v)@) == models_of::<InfoFields>(old(v)@) + (match &self.segment_filename { Some(e) => seq![FieldModel::Text { id: 0x7384, idx: e.index, key: e.id, s: (*e.v)@ }], None => Seq::empty() }),
    {
        match &self.segment_filename {
            Some(e) => {
                let ghost prevv = v@;
                v.push(InfoFields::SegmentFilename(crate::dup_ebml_string(e)));
                proof {
                    assert(models_of::<InfoFields>(v@) =~= models_of::<InfoFields>(prevv).push(v@.last().model()));
                    assert(models_of::<InfoFields>(prevv).push(v@.last().model()) =~= models_of::<InfoFields>(prevv) + (match &self.segment_filename { Some(e) => seq![FieldModel::Text { id: 0x7384, idx: e.index, key: e.id, s: (*e.v)@ }], None => Seq::empty() }));
                }
            },
            None => {
                proof {
                    assert(models_of::<InfoFields>(v@) =~= models_of::<InfoFields>(v@) + (match &self.segment_filename { Some(e) => seq![FieldModel::Text { id: 0x7384, idx: e.index, key: e.id, s: (*e.v)@ }], None => Seq::empty() }));
                }
            },
        }
    }

    /// Append the `prev_uuid` child values to a field run.
    #[verifier::loop_isolation(false)]
    fn push_prev_uuid(&self, v: &mut Vec<InfoFields>)
        ensures
            models_of::<InfoFields>(final(v)@) == models_of::<InfoFields>(old(v)@) + (match &self.prev_uuid { Some(e) => seq![FieldModel::Bin { id: 0x3CB923, idx: e.index, key: e.id, b: (*e.v)@ }], None => Seq::empty() }),
    {
        match &self.prev_uuid {
            Some(e) => {
                let ghost prevv = v@;
                v.push(InfoFields::PrevUuid(crate::dup_ebml_bytes(e)));
                proof {
                    assert(models_of::<InfoFields>(v@) =~= models_of::<InfoFields>(prevv).push(v@.last().model()));
                    assert(models_of::<InfoFields>(prevv).push(v@.last().model()) =~= models_of::<InfoFields>(prevv) + (match &self.prev_uuid { Some(e) => seq![FieldModel::Bin { id: 0x3CB923, idx: e.index, key: e.id, b: (*e.v)@ }], None => Seq::empty() }));
                }
            },
            None => {
                proof {
                    assert(models_of::<InfoFields>(v@) =~= models_of::<InfoFields>(v@) + (match &self.prev_uuid { Some(e) => seq![FieldModel::Bin { id: 0x3CB923, idx: e.index, key: e.id, b: (*e.v)@ }], None => Seq::empty() }));
                }
            },
        }
    }

    /// Append the `prev_filename` child values to a field run.
    #[verifier::loop_isolation(false)]
    fn push_prev_filename(&self, v: &mut Vec<InfoFields>)
        ensures
            models_of::<InfoFields>(final(v)@) == models_of::<InfoFields>(old(v)@) + (match &self.prev_filename { Some(e) => seq![FieldModel::Text { id: 0x3C83AB, idx: e.index, key: e.id, s: (*e.v)@ }], None => Seq::empty() }),
    {
        match &self.prev_filename {
            Some(e) => {
                let ghost prevv = v@;
                v.push(InfoFields::PrevFilename(crate::dup_ebml_string(e)));
                proof {
                    assert(models_of::<InfoFields>(v@) =~= models_of::<InfoFields>(prevv).push(v@.last().model()));
                    assert(models_of::<InfoFields>(prevv).push(v@.last().model()) =~= models_of::<InfoFields>(prevv) + (match &self.prev_filename { Some(e) => seq![FieldModel::Text { id: 0x3C83AB, idx: e.index, key: e.id, s: (*e.v)@ }], None => Seq::empty() }));
                }
            },
            None => {
                proof {
                    assert(models_of::<InfoFields>(v@) =~= models_of::<InfoFields>(v@) + (match &self.prev_filename { Some(e) => seq![FieldModel::Text { id: 0x3C83AB, idx: e.index, key: e.id, s: (*e.v)@ }], None => Seq::empty() }));
                }
            },
        }
    }

    /// Append the `next_uuid` child values to a field run.
    #[verifier::loop_isolation(false)]
    fn push_next_uuid(&self, v: &mut Vec<InfoFields>)
        ensures
            models_of::<InfoFields>(final(v)@) == models_of::<InfoFields>(old(v)@) + (match &self.next_uuid { Some(e) => seq![FieldModel::Bin { id: 0x3EB923, idx: e.index, key: e.id, b: (*e.v)@ }], None => Seq::empty() }),
    {
        match &self.next_uuid {
            Some(e) => {
                let ghost prevv = v@;
                v.push(InfoFields::NextUuid(crate::dup_ebml_bytes(e)));
                proof {
                    assert(models_of::<InfoFields>(v@) =~= models_of::<InfoFields>(prevv).push(v@.last().model()));
                    assert(models_of::<InfoFields>(prevv).push(v@.last().model()) =~= models_of::<InfoFields>(prevv) + (match &self.next_uuid { Some(e) => seq![FieldModel::Bin { id: 0x3EB923, idx: e.index, key: e.id, b: (*e.v)@ }], None => Seq::empty() }));
                }
            },
            None => {
                proof {
                    assert(models_of::<InfoFields>(v@) =~= models_of::<InfoFields>(v@) + (match &self.next_uuid { Some(e) => seq![FieldModel::Bin { id: 0x3EB923, idx: e.index, key: e.id, b: (*e.v)@ }], None => Seq::empty() }));
                }
            },
        }
    }

    /// Append the `next_filename` child values to a field run.
    #[verifier::loop_isolation(false)]
    fn push_next_filename(&self, v: &mut Vec<InfoFields>)
        ensures
            models_of::<InfoFields>(final(v)@) == models_of::<InfoFields>(old(v)@) + (match &self.next_filename { Some(e) => seq![FieldModel::Text { id: 0x3E83BB, idx: e.index, key: e.id, s: (*e.v)@ }], None => Seq::empty() }),
    {
        match &self.next_filename {
            Some(e) => {
                let ghost prevv = v@;
                v.push(InfoFields::NextFilename(crate::dup_ebml_string(e)));
                proof {
                    assert(models_of::<InfoFields>(v@) =~= models_of::<InfoFields>(prevv).push(v@.last().model()));
                    assert(models_of::<InfoFields>(prevv).push(v@.last().model()) =~= models_of::<InfoFields>(prevv) + (match &self.next_filename { Some(e) => seq![FieldModel::Text { id: 0x3E83BB, idx: e.index, key: e.id, s: (*e.v)@ }], None => Seq::empty() }));
                }
            },
            None => {
                proof {
                    assert(models_of::<InfoFields>(v@) =~= models_of::<InfoFields>(v@) + (match &self.next_filename { Some(e) => seq![FieldModel::Text { id: 0x3E83BB, idx: e.index, key: e.id, s: (*e.v)@ }], None => Seq::empty() }));
                }
            },
        }
    }

    /// Append the `segment_family` child values to a field run.
    #[verifier::loop_isolation(false)]
    fn push_segment_family(&self, v: &mut Vec<InfoFields>)
        ensures
            models_of::<InfoFields>(final(v)@) == models_of::<InfoFields>(old(v)@) + info_segment_family_models(self.segment_family@),
    {
        let ghost base = models_of::<InfoFields>(v@);
        let mut i: usize = 0;
        while i < self.segment_family.len()
            invariant
                i <= self.segment_family@.len(),
                models_of::<InfoFields>(v@) == base + info_segment_family_models(self.segment_family@.take(i as int)),
            decreases self.segment_family@.len() - i,
        {
            let e = &self.segment_family[i];
            let ghost prevv = v@;
            v.push(InfoFields::SegmentFamily(crate::dup_ebml_bytes(e)));
            proof {
                assert(self.segment_family@.take(i + 1) =~= self.segment_family@.take(i as int).push(self.segment_family@[i as int]));
                assert(models_of::<InfoFields>(v@) =~= models_of::<InfoFields>(prevv).push(v@.last().model()));
                assert(info_segment_family_models(self.segment_family@.take(i + 1)) =~= info_segment_family_models(self.segment_family@.take(i as int)).push(v@.last().model()));
                assert(base + info_segment_family_models(self.segment_family@.take(i + 1)) =~= (base + info_segment_family_models(self.segment_family@.take(i as int))).push(v@.last().model()));
            }
            i += 1;
        }
        proof {
            assert(self.segment_family@.take(self.segment_family@.len() as int) =~= self.segment_family@);
        }
    }

    /// Append the `chapter_translate` child values to a field run.
    #[verifier::loop_isolation(false)]
    fn push_chapter_translate(&self, v: &mut Vec<InfoFields>)
        ensures
            models_of::<InfoFields>(final(v)@) == models_of::<InfoFields>(old(v)@) + info_chapter_translate_models(self.chapter_translate@),
    {
        let ghost base = models_of::<InfoFields>(v@);
        let mut i: usize = 0;
        while i < self.chapter_translate.len()
            invariant
                i <= self.chapter_translate@.len(),
                models_of::<InfoFields>(v@) == base + info_chapter_translate_models(self.chapter_translate@.take(i as int)),
            decreases self.chapter_translate@.len() - i,
        {
            let e = &self.chapter_translate[i];
            let d = (&*e.v).duplicate();
            proof {
                reveal(ChapterTranslate::model);
                assert(d.model() == (*e.v).model());
            }
            let ghost prevv = v@;
            v.push(InfoFields::ChapterTranslate(Ebml { index: e.index, v: Box::new(d), id: e.id }));
            proof {
                assert(self.chapter_translate@.take(i + 1) =~= self.chapter_translate@.take(i as int).push(self.chapter_translate@[i as int]));
                assert(models_of::<InfoFields>(v@) =~= models_of::<InfoFields>(prevv).push(v@.last().model()));
                assert(info_chapter_translate_models(self.chapter_translate@.take(i + 1)) =~= info_chapter_translate_models(self.chapter_translate@.take(i as int)).push(v@.last().model()));
                assert(base + info_chapter_translate_models(self.chapter_translate@.take(i + 1)) =~= (base + info_chapter_translate_models(self.chapter_translate@.take(i as int))).push(v@.last().model()));
            }
            i += 1;
        }
        proof {
            assert(self.chapter_translate@.take(self.chapter_translate@.len() as int) =~= self.chapter_translate@);
        }
    }

    /// Append the `timestamp_scale` child values to a field run.
    #[verifier::loop_isolation(false)]
    fn push_timestamp_scale(&self, v: &mut Vec<InfoFields>)
        ensures
            models_of::<InfoFields>(final(v)@) == models_of::<InfoFields>(old(v)@) + seq![FieldModel::UInt { id: 0x2AD7B1, idx: self.timestamp_scale.index, key: self.timestamp_scale.id, v: *self.timestamp_scale.v }],
    {
        let ghost prevv = v@;
        v.push(InfoFields::TimestampScale(crate::dup_ebml_copy(&self.timestamp_scale)));
        proof {
            assert(models_of::<InfoFields>(v@) =~= models_of::<InfoFields>(prevv).push(v@.last().model()));
            assert(models_of::<InfoFields>(prevv).push(v@.last().model()) =~= models_of::<InfoFields>(prevv) + seq![FieldModel::UInt { id: 0x2AD7B1, idx: self.timestamp_scale.index, key: self.timestamp_scale.id, v: *self.timestamp_scale.v }]);
        }
    }

    /// Append the `duration` child values to a field run.
    #[verifier::loop_isolation(false)]
    fn push_duration(&self, v: &mut Vec<InfoFields>)
        ensures
            models_of::<InfoFields>(final(v)@) == models_of::<InfoFields>(old(v)@) + (match &self.duration { Some(e) => seq![FieldModel::Flt64 { id: 0x4489, idx: e.index, key: e.id, bits: *e.v }], None => Seq::empty() }),
    {
        match &self.duration {
            Some(e) => {
                let ghost prevv = v@;
                v.push(InfoFields::Duration(crate::dup_ebml_copy(e)));
                proof {
                    assert(models_of::<InfoFields>(v@) =~= models_of::<InfoFields>(prevv).push(v@.last().model()));
                    assert(models_of::<InfoFields>(prevv).push(v@.last().model()) =~= models_of::<InfoFields>(prevv) + (match &self.duration { Some(e) => seq![FieldModel::Flt64 { id: 0x4489, idx: e.index, key: e.id, bits: *e.v }], None => Seq::empty() }));
                }
            },
            None => {
                proof {
                    assert(models_of::<InfoFields>(v@) =~= models_of::<InfoFields>(v@) + (match &self.duration { Some(e) => seq![FieldModel::Flt64 { id: 0x4489, idx: e.index, key: e.id, bits: *e.v }], None => Seq::empty() }));
                }
            },
        }
    }

    /// Append the `date_utc` child values to a field run.
    #[verifier::loop_isolation(false)]
    fn push_date_utc(&self, v: &mut Vec<InfoFields>)
        ensures
            models_of::<InfoFields>(final(v)@) == models_of::<InfoFields>(old(v)@) + (match &self.date_utc { Some(e) => seq![FieldModel::Date { id: 0x4461, idx: e.index, key: e.id, ns: (*e.v).ns }], None => Seq::empty() }),
    {
        match &self.date_utc {
            Some(e) => {
                let ghost prevv = v@;
                v.push(InfoFields::DateUtc(crate::dup_ebml_copy(e)));
                proof {
                    assert(models_of::<InfoFields>(v@) =~= models_of::<InfoFields>(prevv).push(v@.last().model()));
                    assert(models_of::<InfoFields>(prevv).push(v@.last().model()) =~= models_of::<InfoFields>(prevv) + (match &self.date_utc { Some(e) => seq![FieldModel::Date { id: 0x4461, idx: e.index, key: e.id, ns: (*e.v).ns }], None => Seq::empty() }));
                }
            },
            None => {
                proof {
                    assert(models_of::<InfoFields>(v@) =~= models_of::<InfoFields>(v@) + (match &self.date_utc { Some(e) => seq![FieldModel::Date { id: 0x4461, idx: e.index, key: e.id, ns: (*e.v).ns }], None => Seq::empty() }));
                }
            },
        }
    }

    /// Append the `title` child values to a field run.
    #[verifier::loop_isolation(false)]
    fn push_title(&self, v: &mut Vec<InfoFields>)
        ensures
            models_of::<InfoFields>(final(v)@) == models_of::<InfoFields>(old(v)@) + (match &self.title { Some(e) => seq![FieldModel::Text { id: 0x7BA9, idx: e.index, key: e.id, s: (*e.v)@ }], None => Seq::empty() }),
    {
        match &self.title {
            Some(e) => {
                let ghost prevv = v@;
                v.push(InfoFields::Title(crate::dup_ebml_string(e)));
                proof {
                    assert(models_of::<InfoFields>(v@) =~= models_of::<InfoFields>(prevv).push(v@.last().model()));
                    assert(models_of::<InfoFields>(prevv).push(v@.last().model()) =~= models_of::<InfoFields>(prevv) + (match &self.title { Some(e) => seq![FieldModel::Text { id: 0x7BA9, idx: e.index, key: e.id, s: (*e.v)@ }], None => Seq::empty() }));
                }
            },
            None => {
                proof {
                    assert(models_of::<InfoFields>(v@) =~= models_of::<InfoFields>(v@) + (match &self.title { Some(e) => seq![FieldModel::Text { id: 0x7BA9, idx: e.index, key: e.id, s: (*e.v)@ }], None => Seq::empty() }));
                }
            },
        }
    }

    /// Append the `muxing_app` child values to a field run.
    #[verifier::loop_isolation(false)]
    fn push_muxing_app(&self, v: &mut Vec<InfoFields>)
        ensures
            models_of::<InfoFields>(final(v)@) == models_of::<InfoFields>(old(v)@) + seq![FieldModel::Text { id: 0x4D80, idx: self.muxing_app.index, key: self.muxing_app.id, s: (*self.muxing_app.v)@ }],
    {
        let ghost prevv = v@;
        v.push(InfoFields::MuxingApp(crate::dup_ebml_string(&self.muxing_app)));
        proof {
            assert(models_of::<InfoFields>(v@) =~= models_of::<InfoFields>(prevv).push(v@.last().model()));
            assert(models_of::<InfoFields>(prevv).push(v@.last().model()) =~= models_of::<InfoFields>(prevv) + seq![FieldModel::Text { id: 0x4D80, idx: self.muxing_app.index, key: self.muxing_app.id, s: (*self.muxing_app.v)@ }]);
        }
    }

    /// Append the `writing_app` child values to a field run.
    #[verifier::loop_isolation(false)]
    fn push_writing_app(&self, v: &mut Vec<InfoFields>)
        ensures
            models_of::<InfoFields>(final(v)@) == models_of::<InfoFields>(old(v)@) + seq![FieldModel::Text { id: 0x5741, idx: self.writing_app.index, key: self.writing_app.id, s: (*self.writing_app.v)@ }],
    {
        let ghost prevv = v@;
        v.push(InfoFields::WritingApp(crate::dup_ebml_string(&self.writing_app)));
        proof {
            assert(models_of::<InfoFields>(v@) =~= models_of::<InfoFields>(prevv).push(v@.last().model()));
            assert(models_of::<InfoFields>(prevv).push(v@.last().model()) =~= models_of::<InfoFields>(prevv) + seq![FieldModel::Text { id: 0x5741, idx: self.writing_app.index, key: self.writing_app.id, s: (*self.writing_app.v)@ }]);
        }
    }

    /// The present children, each paired with its ID, in emission order.
    #[verifier::rlimit(100)]
    #[verifier::spinoff_prover]
    pub fn elements(&self) -> (r: Vec<InfoFields>)
        ensures
            models_of::<InfoFields>(r@) == self.model(),
    {
        let mut v: Vec<InfoFields> = Vec::new();
        proof {
            assert(models_of::<InfoFields>(v@) =~= Seq::<FieldModel>::empty());
        }
        self.push_segment_uuid(&mut v);
        self.push_segment_filename(&mut v);
        self.push_prev_uuid(&mut v);
        self.push_prev_filename(&mut v);
        self.push_next_uuid(&mut v);
        self.push_next_filename(&mut v);
        self.push_segment_family(&mut v);
        self.push_chapter_translate(&mut v);
        self.push_timestamp_scale(&mut v);
        self.push_duration(&mut v);
        self.push_date_utc(&mut v);
        self.push_title(&mut v);
        self.push_muxing_app(&mut v);
        self.push_writing_app(&mut v);
        proof {
            reveal(Info::raw_model);
            reveal(Info::model);
            assert(Seq::<FieldModel>::empty() + (match &self.segment_uuid { Some(e) => seq![FieldModel::Bin { id: 0x73A4, idx: e.index, key: e.id, b: (*e.v)@ }], None => Seq::empty() }) =~= (match &self.segment_uuid { Some(e) => seq![FieldModel::Bin { id: 0x73A4, idx: e.index, key: e.id, b: (*e.v)@ }], None => Seq::empty() }));
            assert(models_of::<InfoFields>(v@) == self.raw_model());
        }
        sort_fields(v)
    }

    /// A deep copy of the `segment_uuid` slot.
    #[verifier::loop_isolation(false)]
    fn dup_segment_uuid(&self) -> (r: Option<Ebml<Vec<u8>>>)
        ensures
            (match &r { Some(e) => seq![FieldModel::Bin { id: 0x73A4, idx: e.index, key: e.id, b: (*e.v)@ }], None => Seq::empty() }) == (match &self.segment_uuid { Some(e) => seq![FieldModel::Bin { id: 0x73A4, idx: e.index, key: e.id, b: (*e.v)@ }], None => Seq::empty() }),
    {
        match &self.segment_uuid {
            Some(e) => Some(crate::dup_ebml_bytes(e)),
            None => None,
        }
    }

    /// A deep copy of the `segment_filename` slot.
    #[verifier::loop_isolation(false)]
    fn dup_segment_filename(&self) -> (r: Option<Ebml<String>>)
        ensures
            (match &r { Some(e) => seq![FieldModel::Text { id: 0x7384, idx: e.index, key: e.id, s: (*e.v)@ }], None => Seq::empty() }) == (match &self.segment_filename { Some(e) => seq![FieldModel::Text { id: 0x7384, idx: e.index, key: e.id, s: (*e.v)@ }], None => Seq::empty() }),
    {
        match &self.segment_filename {
            Some(e) => Some(crate::dup_ebml_string(e)),
            None => None,
        }
    }

    /// A deep copy of the `prev_uuid` slot.
    #[verifier::loop_isolation(false)]
    fn dup_prev_uuid(&self) -> (r: Option<Ebml<Vec<u8>>>)
        ensures
            (match &r { Some(e) => seq![FieldModel::Bin { id: 0x3CB923, idx: e.index, key: e.id, b: (*e.v)@ }], None => Seq::empty() }) == (match &self.prev_uuid { Some(e) => seq![FieldModel::Bin { id: 0x3CB923, idx: e.index, key: e.id, b: (*e.v)@ }], None => Seq::empty() }),
    {
        match &self.prev_uuid {
            Some(e) => Some(crate::dup_ebml_bytes(e)),
            None => None,
        }
    }

    /// A deep copy of the `prev_filename` slot.
    #[verifier::loop_isolation(false)]
    fn dup_prev_filename(&self) -> (r: Option<Ebml<String>>)
        ensures
            (match &r { Some(e) => seq![FieldModel::Text { id: 0x3C83AB, idx: e.index, key: e.id, s: (*e.v)@ }], None => Seq::empty() }) == (match &self.prev_filename { Some(e) => seq![FieldModel::Text { id: 0x3C83AB, idx: e.index, key: e.id, s: (*e.v)@ }], None => Seq::empty() }),
    {
        match &self.prev_filename {
            Some(e) => Some(crate::dup_ebml_string(e)),
            None => None,
        }
    }

    /// A deep copy of the `next_uuid` slot.
    #[verifier::loop_isolation(false)]
    fn dup_next_uuid(&self) -> (r: Option<Ebml<Vec<u8>>>)
        ensures
            (match &r { Some(e) => seq![FieldModel::Bin { id: 0x3EB923, idx: e.index, key: e.id, b: (*e.v)@ }], None => Seq::empty() }) == (match &self.next_uuid { Some(e) => seq![FieldModel::Bin { id: 0x3EB923, idx: e.index, key: e.id, b: (*e.v)@ }], None => Seq::empty() }),
    {
        match &self.next_uuid {
            Some(e) => Some(crate::dup_ebml_bytes(e)),
            None => None,
        }
    }

    /// A deep copy of the `next_filename` slot.
    #[verifier::loop_isolation(false)]
    fn dup_next_filename(&self) -> (r: Option<Ebml<String>>)
        ensures
            (match &r { Some(e) => seq![FieldModel::Text { id: 0x3E83BB, idx: e.index, key: e.id, s: (*e.v)@ }], None => Seq::empty() }) == (match &self.next_filename { Some(e) => seq![FieldModel::Text { id: 0x3E83BB, idx: e.index, key: e.id, s: (*e.v)@ }], None => Seq::empty() }),
    {
        match &self.next_filename {
            Some(e) => Some(crate::dup_ebml_string(e)),
            None => None,
        }
    }

    /// A deep copy of the `segment_family` slot.
    #[verifier::loop_isolation(false)]
    fn dup_segment_family(&self) -> (r: Vec<Ebml<Vec<u8>>>)
        ensures
            info_segment_family_models(r@) == info_segment_family_models(self.segment_family@),
    {
        let mut out: Vec<Ebml<Vec<u8>>> = Vec::new();
        let mut i: usize = 0;
        while i < self.segment_family.len()
            invariant
                i <= self.segment_family@.len(),
                info_segment_family_models(out@) == info_segment_family_models(self.segment_family@.take(i as int)),
            decreases self.segment_family@.len() - i,
        {
            let e = &self.segment_family[i];
            let ghost prevo = out@;
            out.push(crate::dup_ebml_bytes(e));
            proof {
                assert(self.segment_family@.take(i + 1) =~= self.segment_family@.take(i as int).push(self.segment_family@[i as int]));
                assert(out@.drop_last() =~= prevo);
                assert(self.segment_family@.take(i + 1).drop_last() =~= self.segment_family@.take(i as int));
                assert(FieldModel::Bin { id: 0x4444, idx: (out@.last()).index, key: (out@.last()).id, b: (*(out@.last()).v)@ } == FieldModel::Bin { id: 0x4444, idx: (self.segment_family@[i as int]).index, key: (self.segment_family@[i as int]).id, b: (*(self.segment_family@[i as int]).v)@ });
                assert(info_segment_family_models(out@) =~= info_segment_family_models(prevo).push(FieldModel::Bin { id: 0x4444, idx: (out@.last()).index, key: (out@.last()).id, b: (*(out@.last()).v)@ }));
                assert(info_segment_family_models(self.segment_family@.take(i + 1)) =~= info_segment_family_models(self.segment_family@.take(i as int)).push(FieldModel::Bin { id: 0x4444, idx: (self.segment_family@[i as int]).index, key: (self.segment_family@[i as int]).id, b: (*(self.segment_family@[i as int]).v)@ }));
            }
            i += 1;
        }
        proof {
            assert(self.segment_family@.take(self.segment_family@.len() as int) =~= self.segment_family@);
        }
        out
    }

    /// A deep copy of the `chapter_translate` slot.
    #[verifier::loop_isolation(false)]
    fn dup_chapter_translate(&self) -> (r: Vec<Ebml<ChapterTranslate>>)
        ensures
            info_chapter_translate_models(r@) == info_chapter_translate_models(self.chapter_translate@),
    {
        let mut out: Vec<Ebml<ChapterTranslate>> = Vec::new();
        let mut i: usize = 0;
        while i < self.chapter_translate.len()
            invariant
                i <= self.chapter_translate@.len(),
                info_chapter_translate_models(out@) == info_chapter_translate_models(self.chapter_translate@.take(i as int)),
            decreases self.chapter_translate@.len() - i,
        {
            let e = &self.chapter_translate[i];
            let d = (&*e.v).duplicate();
            proof {
                reveal(ChapterTranslate::model);
                assert(d.model() == (*e.v).model());
            }
            let ghost prevo = out@;
            out.push(Ebml { index: e.index, v: Box::new(d), id: e.id });
            proof {
                assert(self.chapter_translate@.take(i + 1) =~= self.chapter_translate@.take(i as int).push(self.chapter_translate@[i as int]));
                assert(out@.drop_last() =~= prevo);
                assert(self.chapter_translate@.take(i + 1).drop_last() =~= self.chapter_translate@.take(i as int));
                assert(FieldModel::Node { id: 0x6924, idx: (out@.last()).index, key: (out@.last()).id, children: (*(out@.last()).v).model() } == FieldModel::Node { id: 0x6924, idx: (self.chapter_translate@[i as int]).index, key: (self.chapter_translate@[i as int]).id, children: (*(self.chapter_translate@[i as int]).v).model() });
                assert(info_chapter_translate_models(out@) =~= info_chapter_translate_models(prevo).push(FieldModel::Node { id: 0x6924, idx: (out@.last()).index, key: (out@.last()).id, children: (*(out@.last()).v).model() }));
                assert(info_chapter_translate_models(self.chapter_translate@.take(i + 1)) =~= info_chapter_translate_models(self.chapter_translate@.take(i as int)).push(FieldModel::Node { id: 0x6924, idx: (self.chapter_translate@[i as int]).index, key: (self.chapter_translate@[i as int]).id, children: (*(self.chapter_translate@[i as int]).v).model() }));
            }
            i += 1;
        }
        proof {
            assert(self.chapter_translate@.take(self.chapter_translate@.len() as int) =~= self.chapter_translate@);
        }
        out
    }

    /// A deep copy of the `timestamp_scale` slot.
    #[verifier::loop_isolation(false)]
    fn dup_timestamp_scale(&self) -> (r: Ebml<u64>)
        ensures
            seq![FieldModel::UInt { id: 0x2AD7B1, idx: r.index, key: r.id, v: *r.v }] == seq![FieldModel::UInt { id: 0x2AD7B1, idx: self.timestamp_scale.index, key: self.timestamp_scale.id, v: *self.timestamp_scale.v }],
    {
        crate::dup_ebml_copy(&self.timestamp_scale)
    }

    /// A deep copy of the `duration` slot.
    #[verifier::loop_isolation(false)]
    fn dup_duration(&self) -> (r: Option<Ebml<u64>>)
        ensures
            (match &r { Some(e) => seq![FieldModel::Flt64 { id: 0x4489, idx: e.index, key: e.id, bits: *e.v }], None => Seq::empty() }) == (match &self.duration { Some(e) => seq![FieldModel::Flt64 { id: 0x4489, idx: e.index, key: e.id, bits: *e.v }], None => Seq::empty() }),
    {
        match &self.duration {
            Some(e) => Some(crate::dup_ebml_copy(e)),
            None => None,
        }
    }

    /// A deep copy of the `date_utc` slot.
    #[verifier::loop_isolation(false)]
    fn dup_date_utc(&self) -> (r: Option<Ebml<MkvDate>>)
        ensures
            (match &r { Some(e) => seq![FieldModel::Date { id: 0x4461, idx: e.index, key: e.id, ns: (*e.v).ns }], None => Seq::empty() }) == (match &self.date_utc { Some(e) => seq![FieldModel::Date { id: 0x4461, idx: e.index, key: e.id, ns: (*e.v).ns }], None => Seq::empty() }),
    {
        match &self.date_utc {
            Some(e) => Some(crate::dup_ebml_copy(e)),
            None => None,
        }
    }

    /// A deep copy of the `title` slot.
    #[verifier::loop_isolation(false)]
    fn dup_title(&self) -> (r: Option<Ebml<String>>)
        ensures
            (match &r { Some(e) => seq![FieldModel::Text { id: 0x7BA9, idx: e.index, key: e.id, s: (*e.v)@ }], None => Seq::empty() }) == (match &self.title { Some(e) => seq![FieldModel::Text { id: 0x7BA9, idx: e.index, key: e.id, s: (*e.v)@ }], None => Seq::empty() }),
    {
        match &self.title {
            Some(e) => Some(crate::dup_ebml_string(e)),
            None => None,
        }
    }

    /// A deep copy of the `muxing_app` slot.
    #[verifier::loop_isolation(false)]
    fn dup_muxing_app(&self) -> (r: Ebml<String>)
        ensures
            seq![FieldModel::Text { id: 0x4D80, idx: r.index, key: r.id, s: (*r.v)@ }] == seq![FieldModel::Text { id: 0x4D80, idx: self.muxing_app.index, key: self.muxing_app.id, s: (*self.muxing_app.v)@ }],
    {
        crate::dup_ebml_string(&self.muxing_app)
    }

    /// A deep copy of the `writing_app` slot.
    #[verifier::loop_isolation(false)]
    fn dup_writing_app(&self) -> (r: Ebml<String>)
        ensures
            seq![FieldModel::Text { id: 0x5741, idx: r.index, key: r.id, s: (*r.v)@ }] == seq![FieldModel::Text { id: 0x5741, idx: self.writing_app.index, key: self.writing_app.id, s: (*self.writing_app.v)@ }],
    {
        crate::dup_ebml_string(&self.writing_app)
    }

    /// A deep copy with the same children, positions, and keys.
    #[verifier::rlimit(100)]
    #[verifier::spinoff_prover]
    pub fn duplicate(&self) -> (r: Self)
        ensures
            r.raw_model() == self.raw_model(),
            r.size == self.size,
    {
        let r = Info {
            size: self.size,
            segment_uuid: self.dup_segment_uuid(),
            segment_filename: self.dup_segment_filename(),
            prev_uuid: self.dup_prev_uuid(),
            prev_filename: self.dup_prev_filename(),
            next_uuid: self.dup_next_uuid(),
            next_filename: self.dup_next_filename(),
            segment_family: self.dup_segment_family(),
            chapter_translate: self.dup_chapter_translate(),
            timestamp_scale: self.dup_timestamp_scale(),
            duration: self.dup_duration(),
            date_utc: self.dup_date_utc(),
            title: self.dup_title(),
            muxing_app: self.dup_muxing_app(),
            writing_app: self.dup_writing_app(),
        };
        proof {
            reveal(Info::raw_model);
            assert(r.raw_model() == self.raw_model());
        }
        r
    }
}

impl Info {
    /// Serialise the whole element: body to a scratch buffer first, then
    /// the header with the now-known length, then the body.
    pub fn write_blocking(&self, w: &mut Vec<u8>) -> (r: Result<usize, MatroskaError>)
        ensures
            r is Ok <==> body_ok_rec(self.model()) && cat_bytes(self.model()).len() < 0xFFFFFFFFFFFFFF,
            r is Ok ==> final(w)@ == old(w)@ + node_frame_bytes(0x1549A966, cat_bytes(self.model()))
                && r->Ok_0 == node_frame_bytes(0x1549A966, cat_bytes(self.model())).len(),
            r is Err ==> final(w)@ == old(w)@ && r->Err_0 is InvalidVarIntMoreThanVintMax,
    {
        let mut buf: Vec<u8> = Vec::new();
        match self.write_body_blocking(&mut buf) {
            Ok(_) => {},
            Err(e) => {
                return Err(e);
            },
        }
        let start = w.len();
        match crate::io::write_element_id_size(w, 0x1549A966, buf.len() as u64) {
            Ok(_) => {},
            Err(e) => {
                return Err(e);
            },
        }
        w.append(&mut buf);
        Ok(w.len() - start)
    }

    /// Write this element's header with the given body size.
    pub fn write_header_blocking(&self, w: &mut Vec<u8>, size: u64) -> (r: Result<usize, MatroskaError>)
        ensures
            r is Ok <==> crate::io::size_encodable(size),
            r is Ok ==> final(w)@ == old(w)@ + crate::io::header_bytes(0x1549A966, size)
                && r->Ok_0 == crate::io::header_bytes(0x1549A966, size).len(),
            r is Err ==> final(w)@ == old(w)@ && r->Err_0 is InvalidVarIntMoreThanVintMax,
    {
        crate::io::write_element_id_size(w, 0x1549A966, size)
    }

    /// Write the body: every present child, in emission order.
    #[verifier::loop_isolation(false)]
    #[verifier::rlimit(60)]
    #[verifier::spinoff_prover]
    pub fn write_body_blocking(&self, w: &mut Vec<u8>) -> (r: Result<usize, MatroskaError>)
        ensures
            r is Ok <==> body_ok_rec(self.model()),
            r is Ok ==> final(w)@ == old(w)@ + cat_bytes(self.model())
                && r->Ok_0 == cat_bytes(self.model()).len(),
            r is Err ==> r->Err_0 is InvalidVarIntMoreThanVintMax,
    {
        let fields = self.elements();
        let start = w.len();
        let ghost ms = self.model();
        let mut i: usize = 0;
        while i < fields.len()
            invariant
                i <= fields@.len(),
                models_of::<InfoFields>(fields@) == ms,
                w@ == old(w)@ + cat_bytes(ms.take(i as int)),
                body_ok_rec(ms.take(i as int)),
            decreases fields@.len() - i,
        {
            proof {
                assert(models_of::<InfoFields>(fields@)[i as int] == ms[i as int]);
            }
            match fields[i].write_el(w) {
                Ok(_) => {},
                Err(e) => {
                    proof {
                        lemma_body_ok_forall(ms);
                    }
                    return Err(e);
                },
            }
            proof {
                assert(ms.take(i + 1) =~= ms.take(i as int).push(ms[i as int]));
                lemma_cat_snoc(ms.take(i as int), ms[i as int]);
            }
            i += 1;
        }
        proof {
            assert(ms.take(ms.len() as int) =~= ms);
            lemma_body_ok_forall(ms);
        }
        Ok(w.len() - start)
    }
}

/// One present child of a `Info`, paired with its value.
#[derive(Debug)]
pub enum InfoFields {
    SegmentUuid(Ebml<Vec<u8>>),
    SegmentFilename(Ebml<String>),
    PrevUuid(Ebml<Vec<u8>>),
    PrevFilename(Ebml<String>),
    NextUuid(Ebml<Vec<u8>>),
    NextFilename(Ebml<String>),
    SegmentFamily(Ebml<Vec<u8>>),
    ChapterTranslate(Ebml<ChapterTranslate>),
    TimestampScale(Ebml<u64>),
    Duration(Ebml<u64>),
    DateUtc(Ebml<MkvDate>),
    Title(Ebml<String>),
    MuxingApp(Ebml<String>),
    WritingApp(Ebml<String>),
}

impl InfoFields {
    /// The child's element ID and its two ordering slots.
    #[verifier::rlimit(60)]
    #[verifier::spinoff_prover]
    pub fn index(&self) -> (r: (EbmlId, Option<u64>, u64))
        ensures
            r.0.spec_u64() == self.model().eid(),
            r.1 == self.model().idx(),
            r.2 == self.model().key(),
    {
        match self {
            Self::SegmentUuid(val) => (EbmlId::SegmentUuid, val.index, val.id),
            Self::SegmentFilename(val) => (EbmlId::SegmentFilename, val.index, val.id),
            Self::PrevUuid(val) => (EbmlId::PrevUuid, val.index, val.id),
            Self::PrevFilename(val) => (EbmlId::PrevFilename, val.index, val.id),
            Self::NextUuid(val) => (EbmlId::NextUuid, val.index, val.id),
            Self::NextFilename(val) => (EbmlId::NextFilename, val.index, val.id),
            Self::SegmentFamily(val) => (EbmlId::SegmentFamily, val.index, val.id),
            Self::ChapterTranslate(val) => (EbmlId::ChapterTranslate, val.index, val.id),
            Self::TimestampScale(val) => (EbmlId::TimestampScale, val.index, val.id),
            Self::Duration(val) => (EbmlId::Duration, val.index, val.id),
            Self::DateUtc(val) => (EbmlId::DateUtc, val.index, val.id),
            Self::Title(val) => (EbmlId::Title, val.index, val.id),
            Self::MuxingApp(val) => (EbmlId::MuxingApp, val.index, val.id),
            Self::WritingApp(val) => (EbmlId::WritingApp, val.index, val.id),
        }
    }

    /// Write this child's frame.
    #[verifier::rlimit(60)]
    #[verifier::spinoff_prover]
    pub fn write_el(&self, w: &mut Vec<u8>) -> (r: Result<usize, MatroskaError>)
        ensures
            r is Ok <==> el_ok(self.model()),
            r is Ok ==> final(w)@ == old(w)@ + el_bytes(self.model())
                && r->Ok_0 == el_bytes(self.model()).len(),
            r is Err ==> final(w)@ == old(w)@ && r->Err_0 is InvalidVarIntMoreThanVintMax,
    {
        match self {
            Self::SegmentUuid(val) => crate::io::write_el_bin(w, 0x73A4, (*val.v).as_slice()),
            Self::SegmentFilename(val) => crate::io::write_el_utf8(w, 0x7384, (*val.v).as_str()),
            Self::PrevUuid(val) => crate::io::write_el_bin(w, 0x3CB923, (*val.v).as_slice()),
            Self::PrevFilename(val) => crate::io::write_el_utf8(w, 0x3C83AB, (*val.v).as_str()),
            Self::NextUuid(val) => crate::io::write_el_bin(w, 0x3EB923, (*val.v).as_slice()),
            Self::NextFilename(val) => crate::io::write_el_utf8(w, 0x3E83BB, (*val.v).as_str()),
            Self::SegmentFamily(val) => crate::io::write_el_bin(w, 0x4444, (*val.v).as_slice()),
            Self::ChapterTranslate(val) => (*val.v).write_blocking(w),
            Self::TimestampScale(val) => crate::io::write_el_uint(w, 0x2AD7B1, &*val.v),
            Self::Duration(val) => crate::io::write_el_float64(w, 0x4489, *val.v),
            Self::DateUtc(val) => crate::io::write_el_date(w, 0x4461, &*val.v),
            Self::Title(val) => crate::io::write_el_utf8(w, 0x7BA9, (*val.v).as_str()),
            Self::MuxingApp(val) => crate::io::write_el_utf8(w, 0x4D80, (*val.v).as_str()),
            Self::WritingApp(val) => crate::io::write_el_utf8(w, 0x5741, (*val.v).as_str()),
        }
    }
}

impl EbmlField for InfoFields {
    open spec fn model(&self) -> FieldModel {
        match self {
            Self::SegmentUuid(e) => FieldModel::Bin { id: 0x73A4, idx: e.index, key: e.id, b: (*e.v)@ },
            Self::SegmentFilename(e) => FieldModel::Text { id: 0x7384, idx: e.index, key: e.id, s: (*e.v)@ },
            Self::PrevUuid(e) => FieldModel::Bin { id: 0x3CB923, idx: e.index, key: e.id, b: (*e.v)@ },
            Self::PrevFilename(e) => FieldModel::Text { id: 0x3C83AB, idx: e.index, key: e.id, s: (*e.v)@ },
            Self::NextUuid(e) => FieldModel::Bin { id: 0x3EB923, idx: e.index, key: e.id, b: (*e.v)@ },
            Self::NextFilename(e) => FieldModel::Text { id: 0x3E83BB, idx: e.index, key: e.id, s: (*e.v)@ },
            Self::SegmentFamily(e) => FieldModel::Bin { id: 0x4444, idx: e.index, key: e.id, b: (*e.v)@ },
            Self::ChapterTranslate(e) => FieldModel::Node { id: 0x6924, idx: e.index, key: e.id, children: (*e.v).model() },
            Self::TimestampScale(e) => FieldModel::UInt { id: 0x2AD7B1, idx: e.index, key: e.id, v: *e.v },
            Self::Duration(e) => FieldModel::Flt64 { id: 0x4489, idx: e.index, key: e.id, bits: *e.v },
            Self::DateUtc(e) => FieldModel::Date { id: 0x4461, idx: e.index, key: e.id, ns: (*e.v).ns },
            Self::Title(e) => FieldModel::Text { id: 0x7BA9, idx: e.index, key: e.id, s: (*e.v)@ },
            Self::MuxingApp(e) => FieldModel::Text { id: 0x4D80, idx: e.index, key: e.id, s: (*e.v)@ },
            Self::WritingApp(e) => FieldModel::Text { id: 0x5741, idx: e.index, key: e.id, s: (*e.v)@ },
        }
    }

    fn sort_key(&self) -> (r: (Option<u64>, u64)) {
        match self {
            Self::SegmentUuid(e) => (e.index, e.id),
            Self::SegmentFilename(e) => (e.index, e.id),
            Self::PrevUuid(e) => (e.index, e.id),
            Self::PrevFilename(e) => (e.index, e.id),
            Self::NextUuid(e) => (e.index, e.id),
            Self::NextFilename(e) => (e.index, e.id),
            Self::SegmentFamily(e) => (e.index, e.id),
            Self::ChapterTranslate(e) => (e.index, e.id),
            Self::TimestampScale(e) => (e.index, e.id),
            Self::Duration(e) => (e.index, e.id),
            Self::DateUtc(e) => (e.index, e.id),
            Self::Title(e) => (e.index, e.id),
            Self::MuxingApp(e) => (e.index, e.id),
            Self::WritingApp(e) => (e.index, e.id),
        }
    }
}

/// The `ChapterTranslate` structural element.
#[derive(Debug)]
pub struct ChapterTranslate {
    pub size: u64,
    pub chapter_translate_id: Ebml<Vec<u8>>,
    pub chapter_translate_codec: Ebml<u64>,
    pub chapter_translate_edition_uid: Vec<Ebml<u64>>,
}

/// The models of the `chapter_translate_edition_uid` children of a `ChapterTranslate`.
pub open spec fn chaptertranslate_chapter_translate_edition_uid_models(s: Seq<Ebml<u64>>) -> Seq<FieldModel> {
    s.map_values(|e: Ebml<u64>| FieldModel::UInt { id: 0x69FC, idx: e.index, key: e.id, v: *e.v })
}

impl ChapterTranslate {
    /// The models of the children, in declaration order.
    #[verifier::opaque]
    pub open spec fn raw_model(self) -> Seq<FieldModel>
    {
        seq![FieldModel::Bin { id: 0x69A5, idx: self.chapter_translate_id.index, key: self.chapter_translate_id.id, b: (*self.chapter_translate_id.v)@ }]
            + seq![FieldModel::UInt { id: 0x69BF, idx: self.chapter_translate_codec.index, key: self.chapter_translate_codec.id, v: *self.chapter_translate_codec.v }]
            + chaptertranslate_chapter_translate_edition_uid_models(self.chapter_translate_edition_uid@)
    }

    /// The children in emission order.
    #[verifier::opaque]
    pub open spec fn model(self) -> Seq<FieldModel>
    {
        sort_fields_spec(self.raw_model())
    }

    /// Append the `chapter_translate_id` child values to a field run.
    #[verifier::loop_isolation(false)]
    fn push_chapter_translate_id(&self, v: &mut Vec<ChapterTranslateFields>)
        ensures
            models_of::<ChapterTranslateFields>(final(v)@) == models_of::<ChapterTranslateFields>(old(v)@) + seq![FieldModel::Bin { id: 0x69A5, idx: self.chapter_translate_id.index, key: self.chapter_translate_id.id, b: (*self.chapter_translate_id.v)@ }],
    {
        let ghost prevv = v@;
        v.push(ChapterTranslateFields::ChapterTranslateId(crate::dup_ebml_bytes(&self.chapter_translate_id)));
        proof {
            assert(models_of::<ChapterTranslateFields>(v@) =~= models_of::<ChapterTranslateFields>(prevv).push(v@.last().model()));
            assert(models_of::<ChapterTranslateFields>(prevv).push(v@.last().model()) =~= models_of::<ChapterTranslateFields>(prevv) + seq![FieldModel::Bin { id: 0x69A5, idx: self.chapter_translate_id.index, key: self.chapter_translate_id.id, b: (*self.chapter_translate_id.v)@ }]);
        }
    }

    /// Append the `chapter_translate_codec` child values to a field run.
    #[verifier::loop_isolation(false)]
    fn push_chapter_translate_codec(&self, v: &mut Vec<ChapterTranslateFields>)
        ensures
            models_of::<ChapterTranslateFields>(final(v)@) == models_of::<ChapterTranslateFields>(old(v)@) + seq![FieldModel::UInt { id: 0x69BF, idx: self.chapter_translate_codec.index, key: self.chapter_translate_codec.id, v: *self.chapter_translate_codec.v }],
    {
        let ghost prevv = v@;
        v.push(ChapterTranslateFields::ChapterTranslateCodec(crate::dup_ebml_copy(&self.chapter_translate_codec)));
        proof {
            assert(models_of::<ChapterTranslateFields>(v@) =~= models_of::<ChapterTranslateFields>(prevv).push(v@.last().model()));
            assert(models_of::<ChapterTranslateFields>(prevv).push(v@.last().model()) =~= models_of::<ChapterTranslateFields>(prevv) + seq![FieldModel::UInt { id: 0x69BF, idx: self.chapter_translate_codec.index, key: self.chapter_translate_codec.id, v: *self.chapter_translate_codec.v }]);
        }
    }

    /// Append the `chapter_translate_edition_uid` child values to a field run.
    #[verifier::loop_isolation(false)]
    fn push_chapter_translate_edition_uid(&self, v: &mut Vec<ChapterTranslateFields>)
        ensures
            models_of::<ChapterTranslateFields>(final(v)@) == models_of::<ChapterTranslateFields>(old(v)@) + chaptertranslate_chapter_translate_edition_uid_models(self.chapter_translate_edition_uid@),
    {
        let ghost base = models_of::<ChapterTranslateFields>(v@);
        let mut i: usize = 0;
        while i < self.chapter_translate_edition_uid.len()
            invariant
                i <= self.chapter_translate_edition_uid@.len(),
                models_of::<ChapterTranslateFields>(v@) == base + chaptertranslate_chapter_translate_edition_uid_models(self.chapter_translate_edition_uid@.take(i as int)),
            decreases self.chapter_translate_edition_uid@.len() - i,
        {
            let e = &self.chapter_translate_edition_uid[i];
            let ghost prevv = v@;
            v.push(ChapterTranslateFields::ChapterTranslateEditionUid(crate::dup_ebml_copy(e)));
            proof {
                assert(self.chapter_translate_edition_uid@.take(i + 1) =~= self.chapter_translate_edition_uid@.take(i as int).push(self.chapter_translate_edition_uid@[i as int]));
                assert(models_of::<ChapterTranslateFields>(v@) =~= models_of::<ChapterTranslateFields>(prevv).push(v@.last().model()));
                assert(chaptertranslate_chapter_translate_edition_uid_models(self.chapter_translate_edition_uid@.take(i + 1)) =~= chaptertranslate_chapter_translate_edition_uid_models(self.chapter_translate_edition_uid@.take(i as int)).push(v@.last().model()));
                assert(base + chaptertranslate_chapter_translate_edition_uid_models(self.chapter_translate_edition_uid@.take(i + 1)) =~= (base + chaptertranslate_chapter_translate_edition_uid_models(self.chapter_translate_edition_uid@.take(i as int))).push(v@.last().model()));
            }
            i += 1;
        }
        proof {
            assert(self.chapter_translate_edition_uid@.take(self.chapter_translate_edition_uid@.len() as int) =~= self.chapter_translate_edition_uid@);
        }
    }

    /// The present children, each paired with its ID, in emission order.
    #[verifier::rlimit(100)]
    #[verifier::spinoff_prover]
    pub fn elements(&self) -> (r: Vec<ChapterTranslateFields>)
        ensures
            models_of::<ChapterTranslateFields>(r@) == self.model(),
    {
        let mut v: Vec<ChapterTranslateFields> = Vec::new();
        proof {
            assert(models_of::<ChapterTranslateFields>(v@) =~= Seq::<FieldModel>::empty());
        }
        self.push_chapter_translate_id(&mut v);
        self.push_chapter_translate_codec(&mut v);
        self.push_chapter_translate_edition_uid(&mut v);
        proof {
            reveal(ChapterTranslate::raw_model);
            reveal(ChapterTranslate::model);
            assert(Seq::<FieldModel>::empty() + seq![FieldModel::Bin { id: 0x69A5, idx: self.chapter_translate_id.index, key: self.chapter_translate_id.id, b: (*self.chapter_translate_id.v)@ }] =~= seq![FieldModel::Bin { id: 0x69A5, idx: self.chapter_translate_id.index, key: self.chapter_translate_id.id, b: (*self.chapter_translate_id.v)@ }]);
            assert(models_of::<ChapterTranslateFields>(v@) == self.raw_model());
        }
        sort_fields(v)
    }

    /// A deep copy of the `chapter_translate_id` slot.
    #[verifier::loop_isolation(false)]
    fn dup_chapter_translate_id(&self) -> (r: Ebml<Vec<u8>>)
        ensures
            seq![FieldModel::Bin { id: 0x69A5, idx: r.index, key: r.id, b: (*r.v)@ }] == seq![FieldModel::Bin { id: 0x69A5, idx: self.chapter_translate_id.index, key: self.chapter_translate_id.id, b: (*self.chapter_translate_id.v)@ }],
    {
        crate::dup_ebml_bytes(&self.chapter_translate_id)
    }

    /// A deep copy of the `chapter_translate_codec` slot.
    #[verifier::loop_isolation(false)]
    fn dup_chapter_translate_codec(&self) -> (r: Ebml<u64>)
        ensures
            seq![FieldModel::UInt { id: 0x69BF, idx: r.index, key: r.id, v: *r.v }] == seq![FieldModel::UInt { id: 0x69BF, idx: self.chapter_translate_codec.index, key: self.chapter_translate_codec.id, v: *self.chapter_translate_codec.v }],
    {
        crate::dup_ebml_copy(&self.chapter_translate_codec)
    }

    /// A deep copy of the `chapter_translate_edition_uid` slot.
    #[verifier::loop_isolation(false)]
    fn dup_chapter_translate_edition_uid(&self) -> (r: Vec<Ebml<u64>>)
        ensures
            chaptertranslate_chapter_translate_edition_uid_models(r@) == chaptertranslate_chapter_translate_edition_uid_models(self.chapter_translate_edition_uid@),
    {
        let mut out: Vec<Ebml<u64>> = Vec::new();
        let mut i: usize = 0;
        while i < self.chapter_translate_edition_uid.len()
            invariant
                i <= self.chapter_translate_edition_uid@.len(),
                chaptertranslate_chapter_translate_edition_uid_models(out@) == chaptertranslate_chapter_translate_edition_uid_models(self.chapter_translate_edition_uid@.take(i as int)),
            decreases self.chapter_translate_edition_uid@.len() - i,
        {
            let e = &self.chapter_translate_edition_uid[i];
            let ghost prevo = out@;
            out.push(crate::dup_ebml_copy(e));
            proof {
                assert(self.chapter_translate_edition_uid@.take(i + 1) =~= self.chapter_translate_edition_uid@.take(i as int).push(self.chapter_translate_edition_uid@[i as int]));
                assert(out@.drop_last() =~= prevo);
                assert(self.chapter_translate_edition_uid@.take(i + 1).drop_last() =~= self.chapter_translate_edition_uid@.take(i as int));
                assert(FieldModel::UInt { id: 0x69FC, idx: (out@.last()).index, key: (out@.last()).id, v: *(out@.last()).v } == FieldModel::UInt { id: 0x69FC, idx: (self.chapter_translate_edition_uid@[i as int]).index, key: (self.chapter_translate_edition_uid@[i as int]).id, v: *(self.chapter_translate_edition_uid@[i as int]).v });
                assert(chaptertranslate_chapter_translate_edition_uid_models(out@) =~= chaptertranslate_chapter_translate_edition_uid_models(prevo).push(FieldModel::UInt { id: 0x69FC, idx: (out@.last()).index, key: (out@.last()).id, v: *(out@.last()).v }));
                assert(chaptertranslate_chapter_translate_edition_uid_models(self.chapter_translate_edition_uid@.take(i + 1)) =~= chaptertranslate_chapter_translate_edition_uid_models(self.chapter_translate_edition_uid@.take(i as int)).push(FieldModel::UInt { id: 0x69FC, idx: (self.chapter_translate_edition_uid@[i as int]).index, key: (self.chapter_translate_edition_uid@[i as int]).id, v: *(self.chapter_translate_edition_uid@[i as int]).v }));
            }
            i += 1;
        }
        proof {
            assert(self.chapter_translate_edition_uid@.take(self.chapter_translate_edition_uid@.len() as int) =~= self.chapter_translate_edition_uid@);
        }
        out
    }

    /// A deep copy with the same children, positions, and keys.
    #[verifier::rlimit(100)]
    #[verifier::spinoff_prover]
    pub fn duplicate(&self) -> (r: Self)
        ensures
            r.raw_model() == self.raw_model(),
            r.size == self.size,
    {
        let r = ChapterTranslate {
            size: self.size,
            chapter_translate_id: self.dup_chapter_translate_id(),
            chapter_translate_codec: self.dup_chapter_translate_codec(),
            chapter_translate_edition_uid: self.dup_chapter_translate_edition_uid(),
        };
        proof {
            reveal(ChapterTranslate::raw_model);
            assert(r.raw_model() == self.raw_model());
        }
        r
    }
}

impl ChapterTranslate {
    /// Serialise the whole element: body to a scratch buffer first, then
    /// the header with the now-known length, then the body.
    pub fn write_blocking(&self, w: &mut Vec<u8>) -> (r: Result<usize, MatroskaError>)
        ensures
            r is Ok <==> body_ok_rec(self.model()) && cat_bytes(self.model()).len() < 0xFFFFFFFFFFFFFF,
            r is Ok ==> final(w)@ == old(w)@ + node_frame_bytes(0x6924, cat_bytes(self.model()))
                && r->Ok_0 == node_frame_bytes(0x6924, cat_bytes(self.model())).len(),
            r is Err ==> final(w)@ == old(w)@ && r->Err_0 is InvalidVarIntMoreThanVintMax,
    {
        let mut buf: Vec<u8> = Vec::new();
        match self.write_body_blocking(&mut buf) {
            Ok(_) => {},
            Err(e) => {
                return Err(e);
            },
        }
        let start = w.len();
        match crate::io::write_element_id_size(w, 0x6924, buf.len() as u64) {
            Ok(_) => {},
            Err(e) => {
                return Err(e);
            },
        }
        w.append(&mut buf);
        Ok(w.len() - start)
    }

    /// Write this element's header with the given body size.
    pub fn write_header_blocking(&self, w: &mut Vec<u8>, size: u64) -> (r: Result<usize, MatroskaError>)
        ensures
            r is Ok <==> crate::io::size_encodable(size),
            r is Ok ==> final(w)@ == old(w)@ + crate::io::header_bytes(0x6924, size)
                && r->Ok_0 == crate::io::header_bytes(0x6924, size).len(),
            r is Err ==> final(w)@ == old(w)@ && r->Err_0 is InvalidVarIntMoreThanVintMax,
    {
        crate::io::write_element_id_size(w, 0x6924, size)
    }

    /// Write the body: every present child, in emission order.
    #[verifier::loop_isolation(false)]
    #[verifier::rlimit(60)]
    #[verifier::spinoff_prover]
    pub fn write_body_blocking(&self, w: &mut Vec<u8>) -> (r: Result<usize, MatroskaError>)
        ensures
            r is Ok <==> body_ok_rec(self.model()),
            r is Ok ==> final(w)@ == old(w)@ + cat_bytes(self.model())
                && r->Ok_0 == cat_bytes(self.model()).len(),
            r is Err ==> r->Err_0 is InvalidVarIntMoreThanVintMax,
    {
        let fields = self.elements();
        let start = w.len();
        let ghost ms = self.model();
        let mut i: usize = 0;
        while i < fields.len()
            invariant
                i <= fields@.len(),
                models_of::<ChapterTranslateFields>(fields@) == ms,
                w@ == old(w)@ + cat_bytes(ms.take(i as int)),
                body_ok_rec(ms.take(i as int)),
            decreases fields@.len() - i,
        {
            proof {
                assert(models_of::<ChapterTranslateFields>(fields@)[i as int] == ms[i as int]);
            }
            match fields[i].write_el(w) {
                Ok(_) => {},
                Err(e) => {
                    proof {
                        lemma_body_ok_forall(ms);
                    }
                    return Err(e);
                },
            }
            proof {
                assert(ms.take(i + 1) =~= ms.take(i as int).push(ms[i as int]));
                lemma_cat_snoc(ms.take(i as int), ms[i as int]);
            }
            i += 1;
        }
        proof {
            assert(ms.take(ms.len() as int) =~= ms);
            lemma_body_ok_forall(ms);
        }
        Ok(w.len() - start)
    }
}

/// One present child of a `ChapterTranslate`, paired with its value.
#[derive(Debug)]
pub enum ChapterTranslateFields {
    ChapterTranslateId(Ebml<Vec<u8>>),
    ChapterTranslateCodec(Ebml<u64>),
    ChapterTranslateEditionUid(Ebml<u64>),
}

impl ChapterTranslateFields {
    /// The child's element ID and its two ordering slots.
    #[verifier::rlimit(60)]
    #[verifier::spinoff_prover]
    pub fn index(&self) -> (r: (EbmlId, Option<u64>, u64))
        ensures
            r.0.spec_u64() == self.model().eid(),
            r.1 == self.model().idx(),
            r.2 == self.model().key(),
    {
        match self {
            Self::ChapterTranslateId(val) => (EbmlId::ChapterTranslateId, val.index, val.id),
            Self::ChapterTranslateCodec(val) => (EbmlId::ChapterTranslateCodec, val.index, val.id),
            Self::ChapterTranslateEditionUid(val) => (EbmlId::ChapterTranslateEditionUid, val.index, val.id),
        }
    }

    /// Write this child's frame.
    #[verifier::rlimit(60)]
    #[verifier::spinoff_prover]
    pub fn write_el(&self, w: &mut Vec<u8>) -> (r: Result<usize, MatroskaError>)
        ensures
            r is Ok <==> el_ok(self.model()),
            r is Ok ==> final(w)@ == old(w)@ + el_bytes(self.model())
                && r->Ok_0 == el_bytes(self.model()).len(),
            r is Err ==> final(w)@ == old(w)@ && r->Err_0 is InvalidVarIntMoreThanVintMax,
    {
        match self {
            Self::ChapterTranslateId(val) => crate::io::write_el_bin(w, 0x69A5, (*val.v).as_slice()),
            Self::ChapterTranslateCodec(val) => crate::io::write_el_uint(w, 0x69BF, &*val.v),
            Self::ChapterTranslateEditionUid(val) => crate::io::write_el_uint(w, 0x69FC, &*val.v),
        }
    }
}

impl EbmlField for ChapterTranslateFields {
    open spec fn model(&self) -> FieldModel {
        match self {
            Self::ChapterTranslateId(e) => FieldModel::Bin { id: 0x69A5, idx: e.index, key: e.id, b: (*e.v)@ },
            Self::ChapterTranslateCodec(e) => FieldModel::UInt { id: 0x69BF, idx: e.index, key: e.id, v: *e.v },
            Self::ChapterTranslateEditionUid(e) => FieldModel::UInt { id: 0x69FC, idx: e.index, key: e.id, v: *e.v },
        }
    }

    fn sort_key(&self) -> (r: (Option<u64>, u64)) {
        match self {
            Self::ChapterTranslateId(e) => (e.index, e.id),
            Self::ChapterTranslateCodec(e) => (e.index, e.id),
            Self::ChapterTranslateEditionUid(e) => (e.index, e.id),
        }
    }
}

/// The `Cluster` structural element.
#[derive(Debug)]
pub struct Cluster {
    pub size: ElementSize,
    pub timestamp: Ebml<u64>,
    pub silent_tracks: Option<Ebml<SilentTracks>>,
    pub position: Option<Ebml<u64>>,
    pub prev_size: Option<Ebml<u64>>,
    pub simple_block: Vec<Ebml<Vec<u8>>>,
    pub block_group: Vec<Ebml<BlockGroup>>,
    pub encrypted_block: Vec<Ebml<Vec<u8>>>,
}

/// The models of the `simple_block` children of a `Cluster`.
pub open spec fn cluster_simple_block_models(s: Seq<Ebml<Vec<u8>>>) -> Seq<FieldModel> {
    s.map_values(|e: Ebml<Vec<u8>>| FieldModel::Bin { id: 0xA3, idx: e.index, key: e.id, b: (*e.v)@ })
}

/// The models of the `block_group` children of a `Cluster`.
pub open spec fn cluster_block_group_models(s: Seq<Ebml<BlockGroup>>) -> Seq<FieldModel> {
    s.map_values(|e: Ebml<BlockGroup>| FieldModel::Node { id: 0xA0, idx: e.index, key: e.id, children: (*e.v).model() })
}

/// The models of the `encrypted_block` children of a `Cluster`.
pub open spec fn cluster_encrypted_block_models(s: Seq<Ebml<Vec<u8>>>) -> Seq<FieldModel> {
    s.map_values(|e: Ebml<Vec<u8>>| FieldModel::Bin { id: 0xAF, idx: e.index, key: e.id, b: (*e.v)@ })
}

impl Cluster {
    /// The models of the children, in declaration order.
    #[verifier::opaque]
    pub open spec fn raw_model(self) -> Seq<FieldModel>
    {
        seq![FieldModel::UInt { id: 0xE7, idx: self.timestamp.index, key: self.timestamp.id, v: *self.timestamp.v }]
            + (match self.silent_tracks { Some(e) => seq![FieldModel::Node { id: 0x5854, idx: e.index, key: e.id, children: (*e.v).model() }], None => Seq::empty() })
            + (match self.position { Some(e) => seq![FieldModel::UInt { id: 0xA7, idx: e.index, key: e.id, v: *e.v }], None => Seq::empty() })
            + (match self.prev_size { Some(e) => seq![FieldModel::UInt { id: 0xAB, idx: e.index, key: e.id, v: *e.v }], None => Seq::empty() })
            + cluster_simple_block_models(self.simple_block@)
            + cluster_block_group_models(self.block_group@)
            + cluster_encrypted_block_models(self.encrypted_block@)
    }

    /// The children in emission order.
    #[verifier::opaque]
    pub open spec fn model(self) -> Seq<FieldModel>
    {
        sort_fields_spec(self.raw_model())
    }

    /// Append the `timestamp` child values to a field run.
    #[verifier::loop_isolation(false)]
    fn push_timestamp(&self, v: &mut Vec<ClusterFields>)
        ensures
            models_of::<ClusterFields>(final(v)@) == models_of::<ClusterFields>(old(v)@) + seq![FieldModel::UInt { id: 0xE7, idx: self.timestamp.index, key: self.timestamp.id, v: *self.timestamp.v }],
    {
        let ghost prevv = v@;
        v.push(ClusterFields::Timestamp(crate::dup_ebml_copy(&self.timestamp)));
        proof {
            assert(models_of::<ClusterFields>(v@) =~= models_of::<ClusterFields>(prevv).push(v@.last().model()));
            assert(models_of::<ClusterFields>(prevv).push(v@.last().model()) =~= models_of::<ClusterFields>(prevv) + seq![FieldModel::UInt { id: 0xE7, idx: self.timestamp.index, key: self.timestamp.id, v: *self.timestamp.v }]);
        }
    }

    /// Append the `silent_tracks` child values to a field run.
    #[verifier::loop_isolation(false)]
    fn push_silent_tracks(&self, v: &mut Vec<ClusterFields>)
        ensures
            models_of::<ClusterFields>(final(v)@) == models_of::<ClusterFields>(old(v)@) + (match &self.silent_tracks { Some(e) => seq![FieldModel::Node { id: 0x5854, idx: e.index, key: e.id, children: (*e.v).model() }], None => Seq::empty() }),
    {
        match &self.silent_tracks {
            Some(e) => {
                let d = (&*e.v).duplicate();
                proof {
                    reveal(SilentTracks::model);
                    assert(d.model() == (*e.v).model());
                }
                let ghost prevv = v@;
                v.push(ClusterFields::SilentTracks(Ebml { index: e.index, v: Box::new(d), id: e.id }));
                proof {
                    assert(models_of::<ClusterFields>(v@) =~= models_of::<ClusterFields>(prevv).push(v@.last().model()));
                    assert(models_of::<ClusterFields>(prevv).push(v@.last().model()) =~= models_of::<ClusterFields>(prevv) + (match &self.silent_tracks { Some(e) => seq![FieldModel::Node { id: 0x5854, idx: e.index, key: e.id, children: (*e.v).model() }], None => Seq::empty() }));
                }
            },
            None => {
                proof {
                    assert(models_of::<ClusterFields>(v@) =~= models_of::<ClusterFields>(v@) + (match &self.silent_tracks { Some(e) => seq![FieldModel::Node { id: 0x5854, idx: e.index, key: e.id, children: (*e.v).model() }], None => Seq::empty() }));
                }
            },
        }
    }

    /// Append the `position` child values to a field run.
    #[verifier::loop_isolation(false)]
    fn push_position(&self, v: &mut Vec<ClusterFields>)
        ensures
            models_of::<ClusterFields>(final(v)@) == models_of::<ClusterFields>(old(v)@) + (match &self.position { Some(e) => seq![FieldModel::UInt { id: 0xA7, idx: e.index, key: e.id, v: *e.v }], None => Seq::empty() }),
    {
        match &self.position {
            Some(e) => {
                let ghost prevv = v@;
                v.push(ClusterFields::Position(crate::dup_ebml_copy(e)));
                proof {
                    assert(models_of::<ClusterFields>(v@) =~= models_of::<ClusterFields>(prevv).push(v@.last().model()));
                    assert(models_of::<ClusterFields>(prevv).push(v@.last().model()) =~= models_of::<ClusterFields>(prevv) + (match &self.position { Some(e) => seq![FieldModel::UInt { id: 0xA7, idx: e.index, key: e.id, v: *e.v }], None => Seq::empty() }));
                }
            },
            None => {
                proof {
                    assert(models_of::<ClusterFields>(v@) =~= models_of::<ClusterFields>(v@) + (match &self.position { Some(e) => seq![FieldModel::UInt { id: 0xA7, idx: e.index, key: e.id, v: *e.v }], None => Seq::empty() }));
                }
            },
        }
    }

    /// Append the `prev_size` child values to a field run.
    #[verifier::loop_isolation(false)]
    fn push_prev_size(&self, v: &mut Vec<ClusterFields>)
        ensures
            models_of::<ClusterFields>(final(v)@) == models_of::<ClusterFields>(old(v)@) + (match &self.prev_size { Some(e) => seq![FieldModel::UInt { id: 0xAB, idx: e.index, key: e.id, v: *e.v }], None => Seq::empty() }),
    {
        match &self.prev_size {
            Some(e) => {
                let ghost prevv = v@;
                v.push(ClusterFields::PrevSize(crate::dup_ebml_copy(e)));
                proof {
                    assert(models_of::<ClusterFields>(v@) =~= models_of::<ClusterFields>(prevv).push(v@.last().model()));
                    assert(models_of::<ClusterFields>(prevv).push(v@.last().model()) =~= models_of::<ClusterFields>(prevv) + (match &self.prev_size { Some(e) => seq![FieldModel::UInt { id: 0xAB, idx: e.index, key: e.id, v: *e.v }], None => Seq::empty() }));
                }
            },
            None => {
                proof {
                    assert(models_of::<ClusterFields>(v@) =~= models_of::<ClusterFields>(v@) + (match &self.prev_size { Some(e) => seq![FieldModel::UInt { id: 0xAB, idx: e.index, key: e.id, v: *e.v }], None => Seq::empty() }));
                }
            },
        }
    }

    /// Append the `simple_block` child values to a field run.
    #[verifier::loop_isolation(false)]
    fn push_simple_block(&self, v: &mut Vec<ClusterFields>)
        ensures
            models_of::<ClusterFields>(final(v)@) == models_of::<ClusterFields>(old(v)@) + cluster_simple_block_models(self.simple_block@),
    {
        let ghost base = models_of::<ClusterFields>(v@);
        let mut i: usize = 0;
        while i < self.simple_block.len()
            invariant
                i <= self.simple_block@.len(),
                models_of::<ClusterFields>(v@) == base + cluster_simple_block_models(self.simple_block@.take(i as int)),
            decreases self.simple_block@.len() - i,
        {
            let e = &self.simple_block[i];
            let ghost prevv = v@;
            v.push(ClusterFields::SimpleBlock(crate::dup_ebml_bytes(e)));
            proof {
                assert(self.simple_block@.take(i + 1) =~= self.simple_block@.take(i as int).push(self.simple_block@[i as int]));
                assert(models_of::<ClusterFields>(v@) =~= models_of::<ClusterFields>(prevv).push(v@.last().model()));
                assert(cluster_simple_block_models(self.simple_block@.take(i + 1)) =~= cluster_simple_block_models(self.simple_block@.take(i as int)).push(v@.last().model()));
                assert(base + cluster_simple_block_models(self.simple_block@.take(i + 1)) =~= (base + cluster_simple_block_models(self.simple_block@.take(i as int))).push(v@.last().model()));
            }
            i += 1;
        }
        proof {
            assert(self.simple_block@.take(self.simple_block@.len() as int) =~= self.simple_block@);
        }
    }

    /// Append the `block_group` child values to a field run.
    #[verifier::loop_isolation(false)]
    fn push_block_group(&self, v: &mut Vec<ClusterFields>)
        ensures
            models_of::<ClusterFields>(final(v)@) == models_of::<ClusterFields>(old(v)@) + cluster_block_group_models(self.block_group@),
    {
        let ghost base = models_of::<ClusterFields>(v@);
        let mut i: usize = 0;
        while i < self.block_group.len()
            invariant
                i <= self.block_group@.len(),
                models_of::<ClusterFields>(v@) == base + cluster_block_group_models(self.block_group@.take(i as int)),
            decreases self.block_group@.len() - i,
        {
            let e = &self.block_group[i];
            let d = (&*e.v).duplicate();
            proof {
                reveal(BlockGroup::model);
                assert(d.model() == (*e.v).model());
            }
            let ghost prevv = v@;
            v.push(ClusterFields::BlockGroup(Ebml { index: e.index, v: Box::new(d), id: e.id }));
            proof {
                assert(self.block_group@.take(i + 1) =~= self.block_group@.take(i as int).push(self.block_group@[i as int]));
                assert(models_of::<ClusterFields>(v@) =~= models_of::<ClusterFields>(prevv).push(v@.last().model()));
                assert(cluster_block_group_models(self.block_group@.take(i + 1)) =~= cluster_block_group_models(self.block_group@.take(i as int)).push(v@.last().model()));
                assert(base + cluster_block_group_models(self.block_group@.take(i + 1)) =~= (base + cluster_block_group_models(self.block_group@.take(i as int))).push(v@.last().model()));
            }
            i += 1;
        }
        proof {
            assert(self.block_group@.take(self.block_group@.len() as int) =~= self.block_group@);
        }
    }

    /// Append the `encrypted_block` child values to a field run.
    #[verifier::loop_isolation(false)]
    fn push_encrypted_block(&self, v: &mut Vec<ClusterFields>)
        ensures
            models_of::<ClusterFields>(final(v)@) == models_of::<ClusterFields>(old(v)@) + cluster_encrypted_block_models(self.encrypted_block@),
    {
        let ghost base = models_of::<ClusterFields>(v@);
        let mut i: usize = 0;
        while i < self.encrypted_block.len()
            invariant
                i <= self.encrypted_block@.len(),
                models_of::<ClusterFields>(v@) == base + cluster_encrypted_block_models(self.encrypted_block@.take(i as int)),
            decreases self.encrypted_block@.len() - i,
        {
            let e = &self.encrypted_block[i];
            let ghost prevv = v@;
            v.push(ClusterFields::EncryptedBlock(crate::dup_ebml_bytes(e)));
            proof {
                assert(self.encrypted_block@.take(i + 1) =~= self.encrypted_block@.take(i as int).push(self.encrypted_block@[i as int]));
                assert(models_of::<ClusterFields>(v@) =~= models_of::<ClusterFields>(prevv).push(v@.last().model()));
                assert(cluster_encrypted_block_models(self.encrypted_block@.take(i + 1)) =~= cluster_encrypted_block_models(self.encrypted_block@.take(i as int)).push(v@.last().model()));
                assert(base + cluster_encrypted_block_models(self.encrypted_block@.take(i + 1)) =~= (base + cluster_encrypted_block_models(self.encrypted_block@.take(i as int))).push(v@.last().model()));
            }
            i += 1;
        }
        proof {
            assert(self.encrypted_block@.take(self.encrypted_block@.len() as int) =~= self.encrypted_block@);
        }
    }

    /// The present children, each paired with its ID, in emission order.
    #[verifier::rlimit(100)]
    #[verifier::spinoff_prover]
    pub fn elements(&self) -> (r: Vec<ClusterFields>)
        ensures
            models_of::<ClusterFields>(r@) == self.model(),
    {
        let mut v: Vec<ClusterFields> = Vec::new();
        proof {
            assert(models_of::<ClusterFields>(v@) =~= Seq::<FieldModel>::empty());
        }
        self.push_timestamp(&mut v);
        self.push_silent_tracks(&mut v);
        self.push_position(&mut v);
        self.push_prev_size(&mut v);
        self.push_simple_block(&mut v);
        self.push_block_group(&mut v);
        self.push_encrypted_block(&mut v);
        proof {
            reveal(Cluster::raw_model);
            reveal(Cluster::model);
            assert(Seq::<FieldModel>::empty() + seq![FieldModel::UInt { id: 0xE7, idx: self.timestamp.index, key: self.timestamp.id, v: *self.timestamp.v }] =~= seq![FieldModel::UInt { id: 0xE7, idx: self.timestamp.index, key: self.timestamp.id, v: *self.timestamp.v }]);
            assert(models_of::<ClusterFields>(v@) == self.raw_model());
        }
        sort_fields(v)
    }

    /// A deep copy of the `timestamp` slot.
    #[verifier::loop_isolation(false)]
    fn dup_timestamp(&self) -> (r: Ebml<u64>)
        ensures
            seq![FieldModel::UInt { id: 0xE7, idx: r.index, key: r.id, v: *r.v }] == seq![FieldModel::UInt { id: 0xE7, idx: self.timestamp.index, key: self.timestamp.id, v: *self.timestamp.v }],
    {
        crate::dup_ebml_copy(&self.timestamp)
    }

    /// A deep copy of the `silent_tracks` slot.
    #[verifier::loop_isolation(false)]
    fn dup_silent_tracks(&self) -> (r: Option<Ebml<SilentTracks>>)
        ensures
            (match &r { Some(e) => seq![FieldModel::Node { id: 0x5854, idx: e.index, key: e.id, children: (*e.v).model() }], None => Seq::empty() }) == (match &self.silent_tracks { Some(e) => seq![FieldModel::Node { id: 0x5854, idx: e.index, key: e.id, children: (*e.v).model() }], None => Seq::empty() }),
    {
        match &self.silent_tracks {
            Some(e) => {
                let d = (&*e.v).duplicate();
                proof {
                    reveal(SilentTracks::model);
                    assert(d.model() == (*e.v).model());
                }
                Some(Ebml { index: e.index, v: Box::new(d), id: e.id })
            },
            None => None,
        }
    }

    /// A deep copy of the `position` slot.
    #[verifier::loop_isolation(false)]
    fn dup_position(&self) -> (r: Option<Ebml<u64>>)
        ensures
            (match &r { Some(e) => seq![FieldModel::UInt { id: 0xA7, idx: e.index, key: e.id, v: *e.v }], None => Seq::empty() }) == (match &self.position { Some(e) => seq![FieldModel::UInt { id: 0xA7, idx: e.index, key: e.id, v: *e.v }], None => Seq::empty() }),
    {
        match &self.position {
            Some(e) => Some(crate::dup_ebml_copy(e)),
            None => None,
        }
    }

    /// A deep copy of the `prev_size` slot.
    #[verifier::loop_isolation(false)]
    fn dup_prev_size(&self) -> (r: Option<Ebml<u64>>)
        ensures
            (match &r { Some(e) => seq![FieldModel::UInt { id: 0xAB, idx: e.index, key: e.id, v: *e.v }], None => Seq::empty() }) == (match &self.prev_size { Some(e) => seq![FieldModel::UInt { id: 0xAB, idx: e.index, key: e.id, v: *e.v }], None => Seq::empty() }),
    {
        match &self.prev_size {
            Some(e) => Some(crate::dup_ebml_copy(e)),
            None => None,
        }
    }

    /// A deep copy of the `simple_block` slot.
    #[verifier::loop_isolation(false)]
    fn dup_simple_block(&self) -> (r: Vec<Ebml<Vec<u8>>>)
        ensures
            cluster_simple_block_models(r@) == cluster_simple_block_models(self.simple_block@),
    {
        let mut out: Vec<Ebml<Vec<u8>>> = Vec::new();
        let mut i: usize = 0;
        while i < self.simple_block.len()
            invariant
                i <= self.simple_block@.len(),
                cluster_simple_block_models(out@) == cluster_simple_block_models(self.simple_block@.take(i as int)),
            decreases self.simple_block@.len() - i,
        {
            let e = &self.simple_block[i];
            let ghost prevo = out@;
            out.push(crate::dup_ebml_bytes(e));
            proof {
                assert(self.simple_block@.take(i + 1) =~= self.simple_block@.take(i as int).push(self.simple_block@[i as int]));
                assert(out@.drop_last() =~= prevo);
                assert(self.simple_block@.take(i + 1).drop_last() =~= self.simple_block@.take(i as int));
                assert(FieldModel::Bin { id: 0xA3, idx: (out@.last()).index, key: (out@.last()).id, b: (*(out@.last()).v)@ } == FieldModel::Bin { id: 0xA3, idx: (self.simple_block@[i as int]).index, key: (self.simple_block@[i as int]).id, b: (*(self.simple_block@[i as int]).v)@ });
                assert(cluster_simple_block_models(out@) =~= cluster_simple_block_models(prevo).push(FieldModel::Bin { id: 0xA3, idx: (out@.last()).index, key: (out@.last()).id, b: (*(out@.last()).v)@ }));
                assert(cluster_simple_block_models(self.simple_block@.take(i + 1)) =~= cluster_simple_block_models(self.simple_block@.take(i as int)).push(FieldModel::Bin { id: 0xA3, idx: (self.simple_block@[i as int]).index, key: (self.simple_block@[i as int]).id, b: (*(self.simple_block@[i as int]).v)@ }));
            }
            i += 1;
        }
        proof {
            assert(self.simple_block@.take(self.simple_block@.len() as int) =~= self.simple_block@);
        }
        out
    }

    /// A deep copy of the `block_group` slot.
    #[verifier::loop_isolation(false)]
    fn dup_block_group(&self) -> (r: Vec<Ebml<BlockGroup>>)
        ensures
            cluster_block_group_models(r@) == cluster_block_group_models(self.block_group@),
    {
        let mut out: Vec<Ebml<BlockGroup>> = Vec::new();
        let mut i: usize = 0;
        while i < self.block_group.len()
            invariant
                i <= self.block_group@.len(),
                cluster_block_group_models(out@) == cluster_block_group_models(self.block_group@.take(i as int)),
            decreases self.block_group@.len() - i,
        {
            let e = &self.block_group[i];
            let d = (&*e.v).duplicate();
            proof {
                reveal(BlockGroup::model);
                assert(d.model() == (*e.v).model());
            }
            let ghost prevo = out@;
            out.push(Ebml { index: e.index, v: Box::new(d), id: e.id });
            proof {
                assert(self.block_group@.take(i + 1) =~= self.block_group@.take(i as int).push(self.block_group@[i as int]));
                assert(out@.drop_last() =~= prevo);
                assert(self.block_group@.take(i + 1).drop_last() =~= self.block_group@.take(i as int));
                assert(FieldModel::Node { id: 0xA0, idx: (out@.last()).index, key: (out@.last()).id, children: (*(out@.last()).v).model() } == FieldModel::Node { id: 0xA0, idx: (self.block_group@[i as int]).index, key: (self.block_group@[i as int]).id, children: (*(self.block_group@[i as int]).v).model() });
                assert(cluster_block_group_models(out@) =~= cluster_block_group_models(prevo).push(FieldModel::Node { id: 0xA0, idx: (out@.last()).index, key: (out@.last()).id, children: (*(out@.last()).v).model() }));
                assert(cluster_block_group_models(self.block_group@.take(i + 1)) =~= cluster_block_group_models(self.block_group@.take(i as int)).push(FieldModel::Node { id: 0xA0, idx: (self.block_group@[i as int]).index, key: (self.block_group@[i as int]).id, children: (*(self.block_group@[i as int]).v).model() }));
            }
            i += 1;
        }
        proof {
            assert(self.block_group@.take(self.block_group@.len() as int) =~= self.block_group@);
        }
        out
    }

    /// A deep copy of the `encrypted_block` slot.
    #[verifier::loop_isolation(false)]
    fn dup_encrypted_block(&self) -> (r: Vec<Ebml<Vec<u8>>>)
        ensures
            cluster_encrypted_block_models(r@) == cluster_encrypted_block_models(self.encrypted_block@),
    {
        let mut out: Vec<Ebml<Vec<u8>>> = Vec::new();
        let mut i: usize = 0;
        while i < self.encrypted_block.len()
            invariant
                i <= self.encrypted_block@.len(),
                cluster_encrypted_block_models(out@) == cluster_encrypted_block_models(self.encrypted_block@.take(i as int)),
            decreases self.encrypted_block@.len() - i,
        {
            let e = &self.encrypted_block[i];
            let ghost prevo = out@;
            out.push(crate::dup_ebml_bytes(e));
            proof {
                assert(self.encrypted_block@.take(i + 1) =~= self.encrypted_block@.take(i as int).push(self.encrypted_block@[i as int]));
                assert(out@.drop_last() =~= prevo);
                assert(self.encrypted_block@.take(i + 1).drop_last() =~= self.encrypted_block@.take(i as int));
                assert(FieldModel::Bin { id: 0xAF, idx: (out@.last()).index, key: (out@.last()).id, b: (*(out@.last()).v)@ } == FieldModel::Bin { id: 0xAF, idx: (self.encrypted_block@[i as int]).index, key: (self.encrypted_block@[i as int]).id, b: (*(self.encrypted_block@[i as int]).v)@ });
                assert(cluster_encrypted_block_models(out@) =~= cluster_encrypted_block_models(prevo).push(FieldModel::Bin { id: 0xAF, idx: (out@.last()).index, key: (out@.last()).id, b: (*(out@.last()).v)@ }));
                assert(cluster_encrypted_block_models(self.encrypted_block@.take(i + 1)) =~= cluster_encrypted_block_models(self.encrypted_block@.take(i as int)).push(FieldModel::Bin { id: 0xAF, idx: (self.encrypted_block@[i as int]).index, key: (self.encrypted_block@[i as int]).id, b: (*(self.encrypted_block@[i as int]).v)@ }));
            }
            i += 1;
        }
        proof {
            assert(self.encrypted_block@.take(self.encrypted_block@.len() as int) =~= self.encrypted_block@);
        }
        out
    }

    /// A deep copy with the same children, positions, and keys.
    #[verifier::rlimit(100)]
    #[verifier::spinoff_prover]
    pub fn duplicate(&self) -> (r: Self)
        ensures
            r.raw_model() == self.raw_model(),
            r.size == self.size,
    {
        let r = Cluster {
            size: self.size,
            timestamp: self.dup_timestamp(),
            silent_tracks: self.dup_silent_tracks(),
            position: self.dup_position(),
            prev_size: self.dup_prev_size(),
            simple_block: self.dup_simple_block(),
            block_group: self.dup_block_group(),
            encrypted_block: self.dup_encrypted_block(),
        };
        proof {
            reveal(Cluster::raw_model);
            assert(r.raw_model() == self.raw_model());
        }
        r
    }
}

impl Cluster {
    /// Serialise the whole element: body to a scratch buffer first, then
    /// the header with the now-known length, then the body.
    pub fn write_blocking(&self, w: &mut Vec<u8>) -> (r: Result<usize, MatroskaError>)
        ensures
            r is Ok <==> body_ok_rec(self.model()) && cat_bytes(self.model()).len() < 0xFFFFFFFFFFFFFF,
            r is Ok ==> final(w)@ == old(w)@ + node_frame_bytes(0x1F43B675, cat_bytes(self.model()))
                && r->Ok_0 == node_frame_bytes(0x1F43B675, cat_bytes(self.model())).len(),
            r is Err ==> final(w)@ == old(w)@ && r->Err_0 is InvalidVarIntMoreThanVintMax,
    {
        let mut buf: Vec<u8> = Vec::new();
        match self.write_body_blocking(&mut buf) {
            Ok(_) => {},
            Err(e) => {
                return Err(e);
            },
        }
        let start = w.len();
        match crate::io::write_element_id_size(w, 0x1F43B675, buf.len() as u64) {
            Ok(_) => {},
            Err(e) => {
                return Err(e);
            },
        }
        w.append(&mut buf);
        Ok(w.len() - start)
    }

    /// Write this element's header with the given body size.
    pub fn write_header_blocking(&self, w: &mut Vec<u8>, size: u64) -> (r: Result<usize, MatroskaError>)
        ensures
            r is Ok <==> crate::io::size_encodable(size),
            r is Ok ==> final(w)@ == old(w)@ + crate::io::header_bytes(0x1F43B675, size)
                && r->Ok_0 == crate::io::header_bytes(0x1F43B675, size).len(),
            r is Err ==> final(w)@ == old(w)@ && r->Err_0 is InvalidVarIntMoreThanVintMax,
    {
        crate::io::write_element_id_size(w, 0x1F43B675, size)
    }

    /// Write the body: every present child, in emission order.
    #[verifier::loop_isolation(false)]
    #[verifier::rlimit(60)]
    #[verifier::spinoff_prover]
    pub fn write_body_blocking(&self, w: &mut Vec<u8>) -> (r: Result<usize, MatroskaError>)
        ensures
            r is Ok <==> body_ok_rec(self.model()),
            r is Ok ==> final(w)@ == old(w)@ + cat_bytes(self.model())
                && r->Ok_0 == cat_bytes(self.model()).len(),
            r is Err ==> r->Err_0 is InvalidVarIntMoreThanVintMax,
    {
        let fields = self.elements();
        let start = w.len();
        let ghost ms = self.model();
        let mut i: usize = 0;
        while i < fields.len()
            invariant
                i <= fields@.len(),
                models_of::<ClusterFields>(fields@) == ms,
                w@ == old(w)@ + cat_bytes(ms.take(i as int)),
                body_ok_rec(ms.take(i as int)),
            decreases fields@.len() - i,
        {
            proof {
                assert(models_of::<ClusterFields>(fields@)[i as int] == ms[i as int]);
            }
            match fields[i].write_el(w) {
                Ok(_) => {},
                Err(e) => {
                    proof {
                        lemma_body_ok_forall(ms);
                    }
                    return Err(e);
                },
            }
            proof {
                assert(ms.take(i + 1) =~= ms.take(i as int).push(ms[i as int]));
                lemma_cat_snoc(ms.take(i as int), ms[i as int]);
            }
            i += 1;
        }
        proof {
            assert(ms.take(ms.len() as int) =~= ms);
            lemma_body_ok_forall(ms);
        }
        Ok(w.len() - start)
    }
}

/// One present child of a `Cluster`, paired with its value.
#[derive(Debug)]
pub enum ClusterFields {
    Timestamp(Ebml<u64>),
    SilentTracks(Ebml<SilentTracks>),
    Position(Ebml<u64>),
    PrevSize(Ebml<u64>),
    SimpleBlock(Ebml<Vec<u8>>),
    BlockGroup(Ebml<BlockGroup>),
    EncryptedBlock(Ebml<Vec<u8>>),
}

impl ClusterFields {
    /// The child's element ID and its two ordering slots.
    #[verifier::rlimit(60)]
    #[verifier::spinoff_prover]
    pub fn index(&self) -> (r: (EbmlId, Option<u64>, u64))
        ensures
            r.0.spec_u64() == self.model().eid(),
            r.1 == self.model().idx(),
            r.2 == self.model().key(),
    {
        match self {
            Self::Timestamp(val) => (EbmlId::Timestamp, val.index, val.id),
            Self::SilentTracks(val) => (EbmlId::SilentTracks, val.index, val.id),
            Self::Position(val) => (EbmlId::Position, val.index, val.id),
            Self::PrevSize(val) => (EbmlId::PrevSize, val.index, val.id),
            Self::SimpleBlock(val) => (EbmlId::SimpleBlock, val.index, val.id),
            Self::BlockGroup(val) => (EbmlId::BlockGroup, val.index, val.id),
            Self::EncryptedBlock(val) => (EbmlId::EncryptedBlock, val.index, val.id),
        }
    }

    /// Write this child's frame.
    #[verifier::rlimit(60)]
    #[verifier::spinoff_prover]
    pub fn write_el(&self, w: &mut Vec<u8>) -> (r: Result<usize, MatroskaError>)
        ensures
            r is Ok <==> el_ok(self.model()),
            r is Ok ==> final(w)@ == old(w)@ + el_bytes(self.model())
                && r->Ok_0 == el_bytes(self.model()).len(),
            r is Err ==> final(w)@ == old(w)@ && r->Err_0 is InvalidVarIntMoreThanVintMax,
    {
        match self {
            Self::Timestamp(val) => crate::io::write_el_uint(w, 0xE7, &*val.v),
            Self::SilentTracks(val) => (*val.v).write_blocking(w),
            Self::Position(val) => crate::io::write_el_uint(w, 0xA7, &*val.v),
            Self::PrevSize(val) => crate::io::write_el_uint(w, 0xAB, &*val.v),
            Self::SimpleBlock(val) => crate::io::write_el_bin(w, 0xA3, (*val.v).as_slice()),
            Self::BlockGroup(val) => (*val.v).write_blocking(w),
            Self::EncryptedBlock(val) => crate::io::write_el_bin(w, 0xAF, (*val.v).as_slice()),
        }
    }
}

impl EbmlField for ClusterFields {
    open spec fn model(&self) -> FieldModel {
        match self {
            Self::Timestamp(e) => FieldModel::UInt { id: 0xE7, idx: e.index, key: e.id, v: *e.v },
            Self::SilentTracks(e) => FieldModel::Node { id: 0x5854, idx: e.index, key: e.id, children: (*e.v).model() },
            Self::Position(e) => FieldModel::UInt { id: 0xA7, idx: e.index, key: e.id, v: *e.v },
            Self::PrevSize(e) => FieldModel::UInt { id: 0xAB, idx: e.index, key: e.id, v: *e.v },
            Self::SimpleBlock(e) => FieldModel::Bin { id: 0xA3, idx: e.index, key: e.id, b: (*e.v)@ },
            Self::BlockGroup(e) => FieldModel::Node { id: 0xA0, idx: e.index, key: e.id, children: (*e.v).model() },
            Self::EncryptedBlock(e) => FieldModel::Bin { id: 0xAF, idx: e.index, key: e.id, b: (*e.v)@ },
        }
    }

    fn sort_key(&self) -> (r: (Option<u64>, u64)) {
        match self {
            Self::Timestamp(e) => (e.index, e.id),
            Self::SilentTracks(e) => (e.index, e.id),
            Self::Position(e) => (e.index, e.id),
            Self::PrevSize(e) => (e.index, e.id),
            Self::SimpleBlock(e) => (e.index, e.id),
            Self::BlockGroup(e) => (e.index, e.id),
            Self::EncryptedBlock(e) => (e.index, e.id),
        }
    }
}

/// The `SilentTracks` structural element.
#[derive(Debug)]
pub struct SilentTracks {
    pub size: u64,
    pub silent_track_number: Vec<Ebml<u64>>,
}

/// The models of the `silent_track_number` children of a `SilentTracks`.
pub open spec fn silenttracks_silent_track_number_models(s: Seq<Ebml<u64>>) -> Seq<FieldModel> {
    s.map_values(|e: Ebml<u64>| FieldModel::UInt { id: 0x58D7, idx: e.index, key: e.id, v: *e.v })
}

impl SilentTracks {
    /// The models of the children, in declaration order.
    #[verifier::opaque]
    pub open spec fn raw_model(self) -> Seq<FieldModel>
    {
        silenttracks_silent_track_number_models(self.silent_track_number@)
    }

    /// The children in emission order.
    #[verifier::opaque]
    pub open spec fn model(self) -> Seq<FieldModel>
    {
        sort_fields_spec(self.raw_model())
    }

    /// Append the `silent_track_number` child values to a field run.
    #[verifier::loop_isolation(false)]
    fn push_silent_track_number(&self, v: &mut Vec<SilentTracksFields>)
        ensures
            models_of::<SilentTracksFields>(final(v)@) == models_of::<SilentTracksFields>(old(v)@) + silenttracks_silent_track_number_models(self.silent_track_number@),
    {
        let ghost base = models_of::<SilentTracksFields>(v@);
        let mut i: usize = 0;
        while i < self.silent_track_number.len()
            invariant
                i <= self.silent_track_number@.len(),
                models_of::<SilentTracksFields>(v@) == base + silenttracks_silent_track_number_models(self.silent_track_number@.take(i as int)),
            decreases self.silent_track_number@.len() - i,
        {
            let e = &self.silent_track_number[i];
            let ghost prevv = v@;
            v.push(SilentTracksFields::SilentTrackNumber(crate::dup_ebml_copy(e)));
            proof {
                assert(self.silent_track_number@.take(i + 1) =~= self.silent_track_number@.take(i as int).push(self.silent_track_number@[i as int]));
                assert(models_of::<SilentTracksFields>(v@) =~= models_of::<SilentTracksFields>(prevv).push(v@.last().model()));
                assert(silenttracks_silent_track_number_models(self.silent_track_number@.take(i + 1)) =~= silenttracks_silent_track_number_models(self.silent_track_number@.take(i as int)).push(v@.last().model()));
                assert(base + silenttracks_silent_track_number_models(self.silent_track_number@.take(i + 1)) =~= (base + silenttracks_silent_track_number_models(self.silent_track_number@.take(i as int))).push(v@.last().model()));
            }
            i += 1;
        }
        proof {
            assert(self.silent_track_number@.take(self.silent_track_number@.len() as int) =~= self.silent_track_number@);
        }
    }

    /// The present children, each paired with its ID, in emission order.
    #[verifier::rlimit(100)]
    #[verifier::spinoff_prover]
    pub fn elements(&self) -> (r: Vec<SilentTracksFields>)
        ensures
            models_of::<SilentTracksFields>(r@) == self.model(),
    {
        let mut v: Vec<SilentTracksFields> = Vec::new();
        proof {
            assert(models_of::<SilentTracksFields>(v@) =~= Seq::<FieldModel>::empty());
        }
        self.push_silent_track_number(&mut v);
        proof {
            reveal(SilentTracks::raw_model);
            reveal(SilentTracks::model);
            assert(Seq::<FieldModel>::empty() + silenttracks_silent_track_number_models(self.silent_track_number@) =~= silenttracks_silent_track_number_models(self.silent_track_number@));
            assert(models_of::<SilentTracksFields>(v@) == self.raw_model());
        }
        sort_fields(v)
    }

    /// A deep copy of the `silent_track_number` slot.
    #[verifier::loop_isolation(false)]
    fn dup_silent_track_number(&self) -> (r: Vec<Ebml<u64>>)
        ensures
            silenttracks_silent_track_number_models(r@) == silenttracks_silent_track_number_models(self.silent_track_number@),
    {
        let mut out: Vec<Ebml<u64>> = Vec::new();
        let mut i: usize = 0;
        while i < self.silent_track_number.len()
            invariant
                i <= self.silent_track_number@.len(),
                silenttracks_silent_track_number_models(out@) == silenttracks_silent_track_number_models(self.silent_track_number@.take(i as int)),
            decreases self.silent_track_number@.len() - i,
        {
            let e = &self.silent_track_number[i];
            let ghost prevo = out@;
            out.push(crate::dup_ebml_copy(e));
            proof {
                assert(self.silent_track_number@.take(i + 1) =~= self.silent_track_number@.take(i as int).push(self.silent_track_number@[i as int]));
                assert(out@.drop_last() =~= prevo);
                assert(self.silent_track_number@.take(i + 1).drop_last() =~= self.silent_track_number@.take(i as int));
                assert(FieldModel::UInt { id: 0x58D7, idx: (out@.last()).index, key: (out@.last()).id, v: *(out@.last()).v } == FieldModel::UInt { id: 0x58D7, idx: (self.silent_track_number@[i as int]).index, key: (self.silent_track_number@[i as int]).id, v: *(self.silent_track_number@[i as int]).v });
                assert(silenttracks_silent_track_number_models(out@) =~= silenttracks_silent_track_number_models(prevo).push(FieldModel::UInt { id: 0x58D7, idx: (out@.last()).index, key: (out@.last()).id, v: *(out@.last()).v }));
                assert(silenttracks_silent_track_number_models(self.silent_track_number@.take(i + 1)) =~= silenttracks_silent_track_number_models(self.silent_track_number@.take(i as int)).push(FieldModel::UInt { id: 0x58D7, idx: (self.silent_track_number@[i as int]).index, key: (self.silent_track_number@[i as int]).id, v: *(self.silent_track_number@[i as int]).v }));
            }
            i += 1;
        }
        proof {
            assert(self.silent_track_number@.take(self.silent_track_number@.len() as int) =~= self.silent_track_number@);
        }
        out
    }

    /// A deep copy with the same children, positions, and keys.
    #[verifier::rlimit(100)]
    #[verifier::spinoff_prover]
    pub fn duplicate(&self) -> (r: Self)
        ensures
            r.raw_model() == self.raw_model(),
            r.size == self.size,
    {
        let r = SilentTracks {
            size: self.size,
            silent_track_number: self.dup_silent_track_number(),
        };
        proof {
            reveal(SilentTracks::raw_model);
            assert(r.raw_model() == self.raw_model());
        }
        r
    }
}

impl SilentTracks {
    /// Serialise the whole element: body to a scratch buffer first, then
    /// the header with the now-known length, then the body.
    pub fn write_blocking(&self, w: &mut Vec<u8>) -> (r: Result<usize, MatroskaError>)
        ensures
            r is Ok <==> body_ok_rec(self.model()) && cat_bytes(self.model()).len() < 0xFFFFFFFFFFFFFF,
            r is Ok ==> final(w)@ == old(w)@ + node_frame_bytes(0x5854, cat_bytes(self.model()))
                && r->Ok_0 == node_frame_bytes(0x5854, cat_bytes(self.model())).len(),
            r is Err ==> final(w)@ == old(w)@ && r->Err_0 is InvalidVarIntMoreThanVintMax,
    {
        let mut buf: Vec<u8> = Vec::new();
        match self.write_body_blocking(&mut buf) {
            Ok(_) => {},
            Err(e) => {
                return Err(e);
            },
        }
        let start = w.len();
        match crate::io::write_element_id_size(w, 0x5854, buf.len() as u64) {
            Ok(_) => {},
            Err(e) => {
                return Err(e);
            },
        }
        w.append(&mut buf);
        Ok(w.len() - start)
    }

    /// Write this element's header with the given body size.
    pub fn write_header_blocking(&self, w: &mut Vec<u8>, size: u64) -> (r: Result<usize, MatroskaError>)
        ensures
            r is Ok <==> crate::io::size_encodable(size),
            r is Ok ==> final(w)@ == old(w)@ + crate::io::header_bytes(0x5854, size)
                && r->Ok_0 == crate::io::header_bytes(0x5854, size).len(),
            r is Err ==> final(w)@ == old(w)@ && r->Err_0 is InvalidVarIntMoreThanVintMax,
    {
        crate::io::write_element_id_size(w, 0x5854, size)
    }

    /// Write the body: every present child, in emission order.
    #[verifier::loop_isolation(false)]
    #[verifier::rlimit(60)]
    #[verifier::spinoff_prover]
    pub fn write_body_blocking(&self, w: &mut Vec<u8>) -> (r: Result<usize, MatroskaError>)
        ensures
            r is Ok <==> body_ok_rec(self.model()),
            r is Ok ==> final(w)@ == old(w)@ + cat_bytes(self.model())
                && r->Ok_0 == cat_bytes(self.model()).len(),
            r is Err ==> r->Err_0 is InvalidVarIntMoreThanVintMax,
    {
        let fields = self.elements();
        let start = w.len();
        let ghost ms = self.model();
        let mut i: usize = 0;
        while i < fields.len()
            invariant
                i <= fields@.len(),
                models_of::<SilentTracksFields>(fields@) == ms,
                w@ == old(w)@ + cat_bytes(ms.take(i as int)),
                body_ok_rec(ms.take(i as int)),
            decreases fields@.len() - i,
        {
            proof {
                assert(models_of::<SilentTracksFields>(fields@)[i as int] == ms[i as int]);
            }
            match fields[i].write_el(w) {
                Ok(_) => {},
                Err(e) => {
                    proof {
                        lemma_body_ok_forall(ms);
                    }
                    return Err(e);
                },
            }
            proof {
                assert(ms.take(i + 1) =~= ms.take(i as int).push(ms[i as int]));
                lemma_cat_snoc(ms.take(i as int), ms[i as int]);
            }
            i += 1;
        }
        proof {
            assert(ms.take(ms.len() as int) =~= ms);
            lemma_body_ok_forall(ms);
        }
        Ok(w.len() - start)
    }
}

/// One present child of a `SilentTracks`, paired with its value.
#[derive(Debug)]
pub enum SilentTracksFields {
    SilentTrackNumber(Ebml<u64>),
}

impl SilentTracksFields {
    /// The child's element ID and its two ordering slots.
    #[verifier::rlimit(60)]
    #[verifier::spinoff_prover]
    pub fn index(&self) -> (r: (EbmlId, Option<u64>, u64))
        ensures
            r.0.spec_u64() == self.model().eid(),
            r.1 == self.model().idx(),
            r.2 == self.model().key(),
    {
        match self {
            Self::SilentTrackNumber(val) => (EbmlId::SilentTrackNumber, val.index, val.id),
        }
    }

    /// Write this child's frame.
    #[verifier::rlimit(60)]
    #[verifier::spinoff_prover]
    pub fn write_el(&self, w: &mut Vec<u8>) -> (r: Result<usize, MatroskaError>)
        ensures
            r is Ok <==> el_ok(self.model()),
            r is Ok ==> final(w)@ == old(w)@ + el_bytes(self.model())
                && r->Ok_0 == el_bytes(self.model()).len(),
            r is Err ==> final(w)@ == old(w)@ && r->Err_0 is InvalidVarIntMoreThanVintMax,
    {
        match self {
            Self::SilentTrackNumber(val) => crate::io::write_el_uint(w, 0x58D7, &*val.v),
        }
    }
}

impl EbmlField for SilentTracksFields {
    open spec fn model(&self) -> FieldModel {
        match self {
            Self::SilentTrackNumber(e) => FieldModel::UInt { id: 0x58D7, idx: e.index, key: e.id, v: *e.v },
        }
    }

    fn sort_key(&self) -> (r: (Option<u64>, u64)) {
        match self {
            Self::SilentTrackNumber(e) => (e.index, e.id),
        }
    }
}

/// The `BlockGroup` structural element.
#[derive(Debug)]
pub struct BlockGroup {
    pub size: u64,
    pub block: Ebml<Vec<u8>>,
    pub block_virtual: Option<Ebml<Vec<u8>>>,
    pub block_additions: Option<Ebml<BlockAdditions>>,
    pub block_duration: Option<Ebml<u64>>,
    pub reference_priority: Ebml<u64>,
    pub reference_block: Vec<Ebml<i64>>,
    pub reference_virtual: Option<Ebml<i64>>,
    pub codec_state: Option<Ebml<Vec<u8>>>,
    pub discard_padding: Option<Ebml<i64>>,
    pub slices: Option<Ebml<Slices>>,
    pub reference_frame: Option<Ebml<ReferenceFrame>>,
}

/// The models of the `reference_block` children of a `BlockGroup`.
pub open spec fn blockgroup_reference_block_models(s: Seq<Ebml<i64>>) -> Seq<FieldModel> {
    s.map_values(|e: Ebml<i64>| FieldModel::SInt { id: 0xFB, idx: e.index, key: e.id, v: *e.v })
}

impl BlockGroup {
    /// The models of the children, in declaration order.
    #[verifier::opaque]
    pub open spec fn raw_model(self) -> Seq<FieldModel>
    {
        seq![FieldModel::Bin { id: 0xA1, idx: self.block.index, key: self.block.id, b: (*self.block.v)@ }]
            + (match self.block_virtual { Some(e) => seq![FieldModel::Bin { id: 0xA2, idx: e.index, key: e.id, b: (*e.v)@ }], None => Seq::empty() })
            + (match self.block_additions { Some(e) => seq![FieldModel::Node { id: 0x75A1, idx: e.index, key: e.id, children: (*e.v).model() }], None => Seq::empty() })
            + (match self.block_duration { Some(e) => seq![FieldModel::UInt { id: 0x9B, idx: e.index, key: e.id, v: *e.v }], None => Seq::empty() })
            + seq![FieldModel::UInt { id: 0xFA, idx: self.reference_priority.index, key: self.reference_priority.id, v: *self.reference_priority.v }]
            + blockgroup_reference_block_models(self.reference_block@)
            + (match self.reference_virtual { Some(e) => seq![FieldModel::SInt { id: 0xFD, idx: e.index, key: e.id, v: *e.v }], None => Seq::empty() })
            + (match self.codec_state { Some(e) => seq![FieldModel::Bin { id: 0xA4, idx: e.index, key: e.id, b: (*e.v)@ }], None => Seq::empty() })
            + (match self.discard_padding { Some(e) => seq![FieldModel::SInt { id: 0x75A2, idx: e.index, key: e.id, v: *e.v }], None => Seq::empty() })
            + (match self.slices { Some(e) => seq![FieldModel::Node { id: 0x8E, idx: e.index, key: e.id, children: (*e.v).model() }], None => Seq::empty() })
            + (match self.reference_frame { Some(e) => seq![FieldModel::Node { id: 0xC8, idx: e.index, key: e.id, children: (*e.v).model() }], None => Seq::empty() })
    }

    /// The children in emission order.
    #[verifier::opaque]
    pub open spec fn model(self) -> Seq<FieldModel>
    {
        sort_fields_spec(self.raw_model())
    }

    /// Append the `block` child values to a field run.
    #[verifier::loop_isolation(false)]
    fn push_block(&self, v: &mut Vec<BlockGroupFields>)
        ensures
            models_of::<BlockGroupFields>(final(v)@) == models_of::<BlockGroupFields>(old(v)@) + seq![FieldModel::Bin { id: 0xA1, idx: self.block.index, key: self.block.id, b: (*self.block.v)@ }],
    {
        let ghost prevv = v@;
        v.push(BlockGroupFields::Block(crate::dup_ebml_bytes(&self.block)));
        proof {
            assert(models_of::<BlockGroupFields>(v@) =~= models_of::<BlockGroupFields>(prevv).push(v@.last().model()));
            assert(models_of::<BlockGroupFields>(prevv).push(v@.last().model()) =~= models_of::<BlockGroupFields>(prevv) + seq![FieldModel::Bin { id: 0xA1, idx: self.block.index, key: self.block.id, b: (*self.block.v)@ }]);
        }
    }

    /// Append the `block_virtual` child values to a field run.
    #[verifier::loop_isolation(false)]
    fn push_block_virtual(&self, v: &mut Vec<BlockGroupFields>)
        ensures
            models_of::<BlockGroupFields>(final(v)@) == models_of::<BlockGroupFields>(old(v)@) + (match &self.block_virtual { Some(e) => seq![FieldModel::Bin { id: 0xA2, idx: e.index, key: e.id, b: (*e.v)@ }], None => Seq::empty() }),
    {
        match &self.block_virtual {
            Some(e) => {
                let ghost prevv = v@;
                v.push(BlockGroupFields::BlockVirtual(crate::dup_ebml_bytes(e)));
                proof {
                    assert(models_of::<BlockGroupFields>(v@) =~= models_of::<BlockGroupFields>(prevv).push(v@.last().model()));
                    assert(models_of::<BlockGroupFields>(prevv).push(v@.last().model()) =~= models_of::<BlockGroupFields>(prevv) + (match &self.block_virtual { Some(e) => seq![FieldModel::Bin { id: 0xA2, idx: e.index, key: e.id, b: (*e.v)@ }], None => Seq::empty() }));
                }
            },
            None => {
                proof {
                    assert(models_of::<BlockGroupFields>(v@) =~= models_of::<BlockGroupFields>(v@) + (match &self.block_virtual { Some(e) => seq![FieldModel::Bin { id: 0xA2, idx: e.index, key: e.id, b: (*e.v)@ }], None => Seq::empty() }));
                }
            },
        }
    }

    /// Append the `block_additions` child values to a field run.
    #[verifier::loop_isolation(false)]
    fn push_block_additions(&self, v: &mut Vec<BlockGroupFields>)
        ensures
            models_of::<BlockGroupFields>(final(v)@) == models_of::<BlockGroupFields>(old(v)@) + (match &self.block_additions { Some(e) => seq![FieldModel::Node { id: 0x75A1, idx: e.index, key: e.id, children: (*e.v).model() }], None => Seq::empty() }),
    {
        match &self.block_additions {
            Some(e) => {
                let d = (&*e.v).duplicate();
                proof {
                    reveal(BlockAdditions::model);
                    assert(d.model() == (*e.v).model());
                }
                let ghost prevv = v@;
                v.push(BlockGroupFields::BlockAdditions(Ebml { index: e.index, v: Box::new(d), id: e.id }));
                proof {
                    assert(models_of::<BlockGroupFields>(v@) =~= models_of::<BlockGroupFields>(prevv).push(v@.last().model()));
                    assert(models_of::<BlockGroupFields>(prevv).push(v@.last().model()) =~= models_of::<BlockGroupFields>(prevv) + (match &self.block_additions { Some(e) => seq![FieldModel::Node { id: 0x75A1, idx: e.index, key: e.id, children: (*e.v).model() }], None => Seq::empty() }));
                }
            },
            None => {
                proof {
                    assert(models_of::<BlockGroupFields>(v@) =~= models_of::<BlockGroupFields>(v@) + (match &self.block_additions { Some(e) => seq![FieldModel::Node { id: 0x75A1, idx: e.index, key: e.id, children: (*e.v).model() }], None => Seq::empty() }));
                }
            },
        }
    }

    /// Append the `block_duration` child values to a field run.
    #[verifier::loop_isolation(false)]
    fn push_block_duration(&self, v: &mut Vec<BlockGroupFields>)
        ensures
            models_of::<BlockGroupFields>(final(v)@) == models_of::<BlockGroupFields>(old(v)@) + (match &self.block_duration { Some(e) => seq![FieldModel::UInt { id: 0x9B, idx: e.index, key: e.id, v: *e.v }], None => Seq::empty() }),
    {
        match &self.block_duration {
            Some(e) => {
                let ghost prevv = v@;
                v.push(BlockGroupFields::BlockDuration(crate::dup_ebml_copy(e)));
                proof {
                    assert(models_of::<BlockGroupFields>(v@) =~= models_of::<BlockGroupFields>(prevv).push(v@.last().model()));
                    assert(models_of::<BlockGroupFields>(prevv).push(v@.last().model()) =~= models_of::<BlockGroupFields>(prevv) + (match &self.block_duration { Some(e) => seq![FieldModel::UInt { id: 0x9B, idx: e.index, key: e.id, v: *e.v }], None => Seq::empty() }));
                }
            },
            None => {
                proof {
                    assert(models_of::<BlockGroupFields>(v@) =~= models_of::<BlockGroupFields>(v@) + (match &self.block_duration { Some(e) => seq![FieldModel::UInt { id: 0x9B, idx: e.index, key: e.id, v: *e.v }], None => Seq::empty() }));
                }
            },
        }
    }

    /// Append the `reference_priority` child values to a field run.
    #[verifier::loop_isolation(false)]
    fn push_reference_priority(&self, v: &mut Vec<BlockGroupFields>)
        ensures
            models_of::<BlockGroupFields>(final(v)@) == models_of::<BlockGroupFields>(old(v)@) + seq![FieldModel::UInt { id: 0xFA, idx: self.reference_priority.index, key: self.reference_priority.id, v: *self.reference_priority.v }],
    {
        let ghost prevv = v@;
        v.push(BlockGroupFields::ReferencePriority(crate::dup_ebml_copy(&self.reference_priority)));
        proof {
            assert(models_of::<BlockGroupFields>(v@) =~= models_of::<BlockGroupFields>(prevv).push(v@.last().model()));
            assert(models_of::<BlockGroupFields>(prevv).push(v@.last().model()) =~= models_of::<BlockGroupFields>(prevv) + seq![FieldModel::UInt { id: 0xFA, idx: self.reference_priority.index, key: self.reference_priority.id, v: *self.reference_priority.v }]);
        }
    }

    /// Append the `reference_block` child values to a field run.
    #[verifier::loop_isolation(false)]
    fn push_reference_block(&self, v: &mut Vec<BlockGroupFields>)
        ensures
            models_of::<BlockGroupFields>(final(v)@) == models_of::<BlockGroupFields>(old(v)@) + blockgroup_reference_block_models(self.reference_block@),
    {
        let ghost base = models_of::<BlockGroupFields>(v@);
        let mut i: usize = 0;
        while i < self.reference_block.len()
            invariant
                i <= self.reference_block@.len(),
                models_of::<BlockGroupFields>(v@) == base + blockgroup_reference_block_models(self.reference_block@.take(i as int)),
            decreases self.reference_block@.len() - i,
        {
            let e = &self.reference_block[i];
            let ghost prevv = v@;
            v.push(BlockGroupFields::ReferenceBlock(crate::dup_ebml_copy(e)));
            proof {
                assert(self.reference_block@.take(i + 1) =~= self.reference_block@.take(i as int).push(self.reference_block@[i as int]));
                assert(models_of::<BlockGroupFields>(v@) =~= models_of::<BlockGroupFields>(prevv).push(v@.last().model()));
                assert(blockgroup_reference_block_models(self.reference_block@.take(i + 1)) =~= blockgroup_reference_block_models(self.reference_block@.take(i as int)).push(v@.last().model()));
                assert(base + blockgroup_reference_block_models(self.reference_block@.take(i + 1)) =~= (base + blockgroup_reference_block_models(self.reference_block@.take(i as int))).push(v@.last().model()));
            }
            i += 1;
        }
        proof {
            assert(self.reference_block@.take(self.reference_block@.len() as int) =~= self.reference_block@);
        }
    }

    /// Append the `reference_virtual` child values to a field run.
    #[verifier::loop_isolation(false)]
    fn push_reference_virtual(&self, v: &mut Vec<BlockGroupFields>)
        ensures
            models_of::<BlockGroupFields>(final(v)@) == models_of::<BlockGroupFields>(old(v)@) + (match &self.reference_virtual { Some(e) => seq![FieldModel::SInt { id: 0xFD, idx: e.index, key: e.id, v: *e.v }], None => Seq::empty() }),
    {
        match &self.reference_virtual {
            Some(e) => {
                let ghost prevv = v@;
                v.push(BlockGroupFields::ReferenceVirtual(crate::dup_ebml_copy(e)));
                proof {
                    assert(models_of::<BlockGroupFields>(v@) =~= models_of::<BlockGroupFields>(prevv).push(v@.last().model()));
                    assert(models_of::<BlockGroupFields>(prevv).push(v@.last().model()) =~= models_of::<BlockGroupFields>(prevv) + (match &self.reference_virtual { Some(e) => seq![FieldModel::SInt { id: 0xFD, idx: e.index, key: e.id, v: *e.v }], None => Seq::empty() }));
                }
            },
            None => {
                proof {
                    assert(models_of::<BlockGroupFields>(v@) =~= models_of::<BlockGroupFields>(v@) + (match &self.reference_virtual { Some(e) => seq![FieldModel::SInt { id: 0xFD, idx: e.index, key: e.id, v: *e.v }], None => Seq::empty() }));
                }
            },
        }
    }

    /// Append the `codec_state` child values to a field run.
    #[verifier::loop_isolation(false)]
    fn push_codec_state(&self, v: &mut Vec<BlockGroupFields>)
        ensures
            models_of::<BlockGroupFields>(final(v)@) == models_of::<BlockGroupFields>(old(v)@) + (match &self.codec_state { Some(e) => seq![FieldModel::Bin { id: 0xA4, idx: e.index, key: e.id, b: (*e.v)@ }], None => Seq::empty() }),
    {
        match &self.codec_state {
            Some(e) => {
                let ghost prevv = v@;
                v.push(BlockGroupFields::CodecState(crate::dup_ebml_bytes(e)));
                proof {
                    assert(models_of::<BlockGroupFields>(v@) =~= models_of::<BlockGroupFields>(prevv).push(v@.last().model()));
                    assert(models_of::<BlockGroupFields>(prevv).push(v@.last().model()) =~= models_of::<BlockGroupFields>(prevv) + (match &self.codec_state { Some(e) => seq![FieldModel::Bin { id: 0xA4, idx: e.index, key: e.id, b: (*e.v)@ }], None => Seq::empty() }));
                }
            },
            None => {
                proof {
                    assert(models_of::<BlockGroupFields>(v@) =~= models_of::<BlockGroupFields>(v@) + (match &self.codec_state { Some(e) => seq![FieldModel::Bin { id: 0xA4, idx: e.index, key: e.id, b: (*e.v)@ }], None => Seq::empty() }));
                }
            },
        }
    }

    /// Append the `discard_padding` child values to a field run.
    #[verifier::loop_isolation(false)]
    fn push_discard_padding(&self, v: &mut Vec<BlockGroupFields>)
        ensures
            models_of::<BlockGroupFields>(final(v)@) == models_of::<BlockGroupFields>(old(v)@) + (match &self.discard_padding { Some(e) => seq![FieldModel::SInt { id: 0x75A2, idx: e.index, key: e.id, v: *e.v }], None => Seq::empty() }),
    {
        match &self.discard_padding {
            Some(e) => {
                let ghost prevv = v@;
                v.push(BlockGroupFields::DiscardPadding(crate::dup_ebml_copy(e)));
                proof {
                    assert(models_of::<BlockGroupFields>(v@) =~= models_of::<BlockGroupFields>(prevv).push(v@.last().model()));
                    assert(models_of::<BlockGroupFields>(prevv).push(v@.last().model()) =~= models_of::<BlockGroupFields>(prevv) + (match &self.discard_padding { Some(e) => seq![FieldModel::SInt { id: 0x75A2, idx: e.index, key: e.id, v: *e.v }], None => Seq::empty() }));
                }
            },
            None => {
                proof {
                    assert(models_of::<BlockGroupFields>(v@) =~= models_of::<BlockGroupFields>(v@) + (match &self.discard_padding { Some(e) => seq![FieldModel::SInt { id: 0x75A2, idx: e.index, key: e.id, v: *e.v }], None => Seq::empty() }));
                }
            },
        }
    }

    /// Append the `slices` child values to a field run.
    #[verifier::loop_isolation(false)]
    fn push_slices(&self, v: &mut Vec<BlockGroupFields>)
        ensures
            models_of::<BlockGroupFields>(final(v)@) == models_of::<BlockGroupFields>(old(v)@) + (match &self.slices { Some(e) => seq![FieldModel::Node { id: 0x8E, idx: e.index, key: e.id, children: (*e.v).model() }], None => Seq::empty() }),
    {
        match &self.slices {
            Some(e) => {
                let d = (&*e.v).duplicate();
                proof {
                    reveal(Slices::model);
                    assert(d.model() == (*e.v).model());
                }
                let ghost prevv = v@;
                v.push(BlockGroupFields::Slices(Ebml { index: e.index, v: Box::new(d), id: e.id }));
                proof {
                    assert(models_of::<BlockGroupFields>(v@) =~= models_of::<BlockGroupFields>(prevv).push(v@.last().model()));
                    assert(models_of::<BlockGroupFields>(prevv).push(v@.last().model()) =~= models_of::<BlockGroupFields>(prevv) + (match &self.slices { Some(e) => seq![FieldModel::Node { id: 0x8E, idx: e.index, key: e.id, children: (*e.v).model() }], None => Seq::empty() }));
                }
            },
            None => {
                proof {
                    assert(models_of::<BlockGroupFields>(v@) =~= models_of::<BlockGroupFields>(v@) + (match &self.slices { Some(e) => seq![FieldModel::Node { id: 0x8E, idx: e.index, key: e.id, children: (*e.v).model() }], None => Seq::empty() }));
                }
            },
        }
    }

    /// Append the `reference_frame` child values to a field run.
    #[verifier::loop_isolation(false)]
    fn push_reference_frame(&self, v: &mut Vec<BlockGroupFields>)
        ensures
            models_of::<BlockGroupFields>(final(v)@) == models_of::<BlockGroupFields>(old(v)@) + (match &self.reference_frame { Some(e) => seq![FieldModel::Node { id: 0xC8, idx: e.index, key: e.id, children: (*e.v).model() }], None => Seq::empty() }),
    {
        match &self.reference_frame {
            Some(e) => {
                let d = (&*e.v).duplicate();
                proof {
                    reveal(ReferenceFrame::model);
                    assert(d.model() == (*e.v).model());
                }
                let ghost prevv = v@;
                v.push(BlockGroupFields::ReferenceFrame(Ebml { index: e.index, v: Box::new(d), id: e.id }));
                proof {
                    assert(models_of::<BlockGroupFields>(v@) =~= models_of::<BlockGroupFields>(prevv).push(v@.last().model()));
                    assert(models_of::<BlockGroupFields>(prevv).push(v@.last().model()) =~= models_of::<BlockGroupFields>(prevv) + (match &self.reference_frame { Some(e) => seq![FieldModel::Node { id: 0xC8, idx: e.index, key: e.id, children: (*e.v).model() }], None => Seq::empty() }));
                }
            },
            None => {
                proof {
                    assert(models_of::<BlockGroupFields>(v@) =~= models_of::<BlockGroupFields>(v@) + (match &self.reference_frame { Some(e) => seq![FieldModel::Node { id: 0xC8, idx: e.index, key: e.id, children: (*e.v).model() }], None => Seq::empty() }));
                }
            },
        }
    }

    /// The present children, each paired with its ID, in emission order.
    #[verifier::rlimit(100)]
    #[verifier::spinoff_prover]
    pub fn elements(&self) -> (r: Vec<BlockGroupFields>)
        ensures
            models_of::<BlockGroupFields>(r@) == self.model(),
    {
        let mut v: Vec<BlockGroupFields> = Vec::new();
        proof {
            assert(models_of::<BlockGroupFields>(v@) =~= Seq::<FieldModel>::empty());
        }
        self.push_block(&mut v);
        self.push_block_virtual(&mut v);
        self.push_block_additions(&mut v);
        self.push_block_duration(&mut v);
        self.push_reference_priority(&mut v);
        self.push_reference_block(&mut v);
        self.push_reference_virtual(&mut v);
        self.push_codec_state(&mut v);
        self.push_discard_padding(&mut v);
        self.push_slices(&mut v);
        self.push_reference_frame(&mut v);
        proof {
            reveal(BlockGroup::raw_model);
            reveal(BlockGroup::model);
            assert(Seq::<FieldModel>::empty() + seq![FieldModel::Bin { id: 0xA1, idx: self.block.index, key: self.block.id, b: (*self.block.v)@ }] =~= seq![FieldModel::Bin { id: 0xA1, idx: self.block.index, key: self.block.id, b: (*self.block.v)@ }]);
            assert(models_of::<BlockGroupFields>(v@) == self.raw_model());
        }
        sort_fields(v)
    }

    /// A deep copy of the `block` slot.
    #[verifier::loop_isolation(false)]
    fn dup_block(&self) -> (r: Ebml<Vec<u8>>)
        ensures
            seq![FieldModel::Bin { id: 0xA1, idx: r.index, key: r.id, b: (*r.v)@ }] == seq![FieldModel::Bin { id: 0xA1, idx: self.block.index, key: self.block.id, b: (*self.block.v)@ }],
    {
        crate::dup_ebml_bytes(&self.block)
    }

    /// A deep copy of the `block_virtual` slot.
    #[verifier::loop_isolation(false)]
    fn dup_block_virtual(&self) -> (r: Option<Ebml<Vec<u8>>>)
        ensures
            (match &r { Some(e) => seq![FieldModel::Bin { id: 0xA2, idx: e.index, key: e.id, b: (*e.v)@ }], None => Seq::empty() }) == (match &self.block_virtual { Some(e) => seq![FieldModel::Bin { id: 0xA2, idx: e.index, key: e.id, b: (*e.v)@ }], None => Seq::empty() }),
    {
        match &self.block_virtual {
            Some(e) => Some(crate::dup_ebml_bytes(e)),
            None => None,
        }
    }

    /// A deep copy of the `block_additions` slot.
    #[verifier::loop_isolation(false)]
    fn dup_block_additions(&self) -> (r: Option<Ebml<BlockAdditions>>)
        ensures
            (match &r { Some(e) => seq![FieldModel::Node { id: 0x75A1, idx: e.index, key: e.id, children: (*e.v).model() }], None => Seq::empty() }) == (match &self.block_additions { Some(e) => seq![FieldModel::Node { id: 0x75A1, idx: e.index, key: e.id, children: (*e.v).model() }], None => Seq::empty() }),
    {
        match &self.block_additions {
            Some(e) => {
                let d = (&*e.v).duplicate();
                proof {
                    reveal(BlockAdditions::model);
                    assert(d.model() == (*e.v).model());
                }
                Some(Ebml { index: e.index, v: Box::new(d), id: e.id })
            },
            None => None,
        }
    }

    /// A deep copy of the `block_duration` slot.
    #[verifier::loop_isolation(false)]
    fn dup_block_duration(&self) -> (r: Option<Ebml<u64>>)
        ensures
            (match &r { Some(e) => seq![FieldModel::UInt { id: 0x9B, idx: e.index, key: e.id, v: *e.v }], None => Seq::empty() }) == (match &self.block_duration { Some(e) => seq![FieldModel::UInt { id: 0x9B, idx: e.index, key: e.id, v: *e.v }], None => Seq::empty() }),
    {
        match &self.block_duration {
            Some(e) => Some(crate::dup_ebml_copy(e)),
            None => None,
        }
    }

    /// A deep copy of the `reference_priority` slot.
    #[verifier::loop_isolation(false)]
    fn dup_reference_priority(&self) -> (r: Ebml<u64>)
        ensures
            seq![FieldModel::UInt { id: 0xFA, idx: r.index, key: r.id, v: *r.v }] == seq![FieldModel::UInt { id: 0xFA, idx: self.reference_priority.index, key: self.reference_priority.id, v: *self.reference_priority.v }],
    {
        crate::dup_ebml_copy(&self.reference_priority)
    }

    /// A deep copy of the `reference_block` slot.
    #[verifier::loop_isolation(false)]
    fn dup_reference_block(&self) -> (r: Vec<Ebml<i64>>)
        ensures
            blockgroup_reference_block_models(r@) == blockgroup_reference_block_models(self.reference_block@),
    {
        let mut out: Vec<Ebml<i64>> = Vec::new();
        let mut i: usize = 0;
        while i < self.reference_block.len()
            invariant
                i <= self.reference_block@.len(),
                blockgroup_reference_block_models(out@) == blockgroup_reference_block_models(self.reference_block@.take(i as int)),
            decreases self.reference_block@.len() - i,
        {
            let e = &self.reference_block[i];
            let ghost prevo = out@;
            out.push(crate::dup_ebml_copy(e));
            proof {
                assert(self.reference_block@.take(i + 1) =~= self.reference_block@.take(i as int).push(self.reference_block@[i as int]));
                assert(out@.drop_last() =~= prevo);
                assert(self.reference_block@.take(i + 1).drop_last() =~= self.reference_block@.take(i as int));
                assert(FieldModel::SInt { id: 0xFB, idx: (out@.last()).index, key: (out@.last()).id, v: *(out@.last()).v } == FieldModel::SInt { id: 0xFB, idx: (self.reference_block@[i as int]).index, key: (self.reference_block@[i as int]).id, v: *(self.reference_block@[i as int]).v });
                assert(blockgroup_reference_block_models(out@) =~= blockgroup_reference_block_models(prevo).push(FieldModel::SInt { id: 0xFB, idx: (out@.last()).index, key: (out@.last()).id, v: *(out@.last()).v }));
                assert(blockgroup_reference_block_models(self.reference_block@.take(i + 1)) =~= blockgroup_reference_block_models(self.reference_block@.take(i as int)).push(FieldModel::SInt { id: 0xFB, idx: (self.reference_block@[i as int]).index, key: (self.reference_block@[i as int]).id, v: *(self.reference_block@[i as int]).v }));
            }
            i += 1;
        }
        proof {
            assert(self.reference_block@.take(self.reference_block@.len() as int) =~= self.reference_block@);
        }
        out
    }

    /// A deep copy of the `reference_virtual` slot.
    #[verifier::loop_isolation(false)]
    fn dup_reference_virtual(&self) -> (r: Option<Ebml<i64>>)
        ensures
            (match &r { Some(e) => seq![FieldModel::SInt { id: 0xFD, idx: e.index, key: e.id, v: *e.v }], None => Seq::empty() }) == (match &self.reference_virtual { Some(e) => seq![FieldModel::SInt { id: 0xFD, idx: e.index, key: e.id, v: *e.v }], None => Seq::empty() }),
    {
        match &self.reference_virtual {
            Some(e) => Some(crate::dup_ebml_copy(e)),
            None => None,
        }
    }

    /// A deep copy of the `codec_state` slot.
    #[verifier::loop_isolation(false)]
    fn dup_codec_state(&self) -> (r: Option<Ebml<Vec<u8>>>)
        ensures
            (match &r { Some(e) => seq![FieldModel::Bin { id: 0xA4, idx: e.index, key: e.id, b: (*e.v)@ }], None => Seq::empty() }) == (match &self.codec_state { Some(e) => seq![FieldModel::Bin { id: 0xA4, idx: e.index, key: e.id, b: (*e.v)@ }], None => Seq::empty() }),
    {
        match &self.codec_state {
            Some(e) => Some(crate::dup_ebml_bytes(e)),
            None => None,
        }
    }

    /// A deep copy of the `discard_padding` slot.
    #[verifier::loop_isolation(false)]
    fn dup_discard_padding(&self) -> (r: Option<Ebml<i64>>)
        ensures
            (match &r { Some(e) => seq![FieldModel::SInt { id: 0x75A2, idx: e.index, key: e.id, v: *e.v }], None => Seq::empty() }) == (match &self.discard_padding { Some(e) => seq![FieldModel::SInt { id: 0x75A2, idx: e.index, key: e.id, v: *e.v }], None => Seq::empty() }),
    {
        match &self.discard_padding {
            Some(e) => Some(crate::dup_ebml_copy(e)),
            None => None,
        }
    }

    /// A deep copy of the `slices` slot.
    #[verifier::loop_isolation(false)]
    fn dup_slices(&self) -> (r: Option<Ebml<Slices>>)
        ensures
            (match &r { Some(e) => seq![FieldModel::Node { id: 0x8E, idx: e.index, key: e.id, children: (*e.v).model() }], None => Seq::empty() }) == (match &self.slices { Some(e) => seq![FieldModel::Node { id: 0x8E, idx: e.index, key: e.id, children: (*e.v).model() }], None => Seq::empty() }),
    {
        match &self.slices {
            Some(e) => {
                let d = (&*e.v).duplicate();
                proof {
                    reveal(Slices::model);
                    assert(d.model() == (*e.v).model());
                }
                Some(Ebml { index: e.index, v: Box::new(d), id: e.id })
            },
            None => None,
        }
    }

    /// A deep copy of the `reference_frame` slot.
    #[verifier::loop_isolation(false)]
    fn dup_reference_frame(&self) -> (r: Option<Ebml<ReferenceFrame>>)
        ensures
            (match &r { Some(e) => seq![FieldModel::Node { id: 0xC8, idx: e.index, key: e.id, children: (*e.v).model() }], None => Seq::empty() }) == (match &self.reference_frame { Some(e) => seq![FieldModel::Node { id: 0xC8, idx: e.index, key: e.id, children: (*e.v).model() }], None => Seq::empty() }),
    {
        match &self.reference_frame {
            Some(e) => {
                let d = (&*e.v).duplicate();
                proof {
                    reveal(ReferenceFrame::model);
                    assert(d.model() == (*e.v).model());
                }
                Some(Ebml { index: e.index, v: Box::new(d), id: e.id })
            },
            None => None,
        }
    }

    /// A deep copy with the same children, positions, and keys.
    #[verifier::rlimit(100)]
    #[verifier::spinoff_prover]
    pub fn duplicate(&self) -> (r: Self)
        ensures
            r.raw_model() == self.raw_model(),
            r.size == self.size,
    {
        let r = BlockGroup {
            size: self.size,
            block: self.dup_block(),
            block_virtual: self.dup_block_virtual(),
            block_additions: self.dup_block_additions(),
            block_duration: self.dup_block_duration(),
            reference_priority: self.dup_reference_priority(),
            reference_block: self.dup_reference_block(),
            reference_virtual: self.dup_reference_virtual(),
            codec_state: self.dup_codec_state(),
            discard_padding: self.dup_discard_padding(),
            slices: self.dup_slices(),
            reference_frame: self.dup_reference_frame(),
        };
        proof {
            reveal(BlockGroup::raw_model);
            assert(r.raw_model() == self.raw_model());
        }
        r
    }
}

impl BlockGroup {
    /// Serialise the whole element: body to a scratch buffer first, then
    /// the header with the now-known length, then the body.
    pub fn write_blocking(&self, w: &mut Vec<u8>) -> (r: Result<usize, MatroskaError>)
        ensures
            r is Ok <==> body_ok_rec(self.model()) && cat_bytes(self.model()).len() < 0xFFFFFFFFFFFFFF,
            r is Ok ==> final(w)@ == old(w)@ + node_frame_bytes(0xA0, cat_bytes(self.model()))
                && r->Ok_0 == node_frame_bytes(0xA0, cat_bytes(self.model())).len(),
            r is Err ==> final(w)@ == old(w)@ && r->Err_0 is InvalidVarIntMoreThanVintMax,
    {
        let mut buf: Vec<u8> = Vec::new();
        match self.write_body_blocking(&mut buf) {
            Ok(_) => {},
            Err(e) => {
                return Err(e);
            },
        }
        let start = w.len();
        match crate::io::write_element_id_size(w, 0xA0, buf.len() as u64) {
            Ok(_) => {},
            Err(e) => {
                return Err(e);
            },
        }
        w.append(&mut buf);
        Ok(w.len() - start)
    }

    /// Write this element's header with the given body size.
    pub fn write_header_blocking(&self, w: &mut Vec<u8>, size: u64) -> (r: Result<usize, MatroskaError>)
        ensures
            r is Ok <==> crate::io::size_encodable(size),
            r is Ok ==> final(w)@ == old(w)@ + crate::io::header_bytes(0xA0, size)
                && r->Ok_0 == crate::io::header_bytes(0xA0, size).len(),
            r is Err ==> final(w)@ == old(w)@ && r->Err_0 is InvalidVarIntMoreThanVintMax,
    {
        crate::io::write_element_id_size(w, 0xA0, size)
    }

    /// Write the body: every present child, in emission order.
    #[verifier::loop_isolation(false)]
    #[verifier::rlimit(60)]
    #[verifier::spinoff_prover]
    pub fn write_body_blocking(&self, w: &mut Vec<u8>) -> (r: Result<usize, MatroskaError>)
        ensures
            r is Ok <==> body_ok_rec(self.model()),
            r is Ok ==> final(w)@ == old(w)@ + cat_bytes(self.model())
                && r->Ok_0 == cat_bytes(self.model()).len(),
            r is Err ==> r->Err_0 is InvalidVarIntMoreThanVintMax,
    {
        let fields = self.elements();
        let start = w.len();
        let ghost ms = self.model();
        let mut i: usize = 0;
        while i < fields.len()
            invariant
                i <= fields@.len(),
                models_of::<BlockGroupFields>(fields@) == ms,
                w@ == old(w)@ + cat_bytes(ms.take(i as int)),
                body_ok_rec(ms.take(i as int)),
            decreases fields@.len() - i,
        {
            proof {
                assert(models_of::<BlockGroupFields>(fields@)[i as int] == ms[i as int]);
            }
            match fields[i].write_el(w) {
                Ok(_) => {},
                Err(e) => {
                    proof {
                        lemma_body_ok_forall(ms);
                    }
                    return Err(e);
                },
            }
            proof {
                assert(ms.take(i + 1) =~= ms.take(i as int).push(ms[i as int]));
                lemma_cat_snoc(ms.take(i as int), ms[i as int]);
            }
            i += 1;
        }
        proof {
            assert(ms.take(ms.len() as int) =~= ms);
            lemma_body_ok_forall(ms);
        }
        Ok(w.len() - start)
    }
}

/// One present child of a `BlockGroup`, paired with its value.
#[derive(Debug)]
pub enum BlockGroupFields {
    Block(Ebml<Vec<u8>>),
    BlockVirtual(Ebml<Vec<u8>>),
    BlockAdditions(Ebml<BlockAdditions>),
    BlockDuration(Ebml<u64>),
    ReferencePriority(Ebml<u64>),
    ReferenceBlock(Ebml<i64>),
    ReferenceVirtual(Ebml<i64>),
    CodecState(Ebml<Vec<u8>>),
    DiscardPadding(Ebml<i64>),
    Slices(Ebml<Slices>),
    ReferenceFrame(Ebml<ReferenceFrame>),
}

impl BlockGroupFields {
    /// The child's element ID and its two ordering slots.
    #[verifier::rlimit(60)]
    #[verifier::spinoff_prover]
    pub fn index(&self) -> (r: (EbmlId, Option<u64>, u64))
        ensures
            r.0.spec_u64() == self.model().eid(),
            r.1 == self.model().idx(),
            r.2 == self.model().key(),
    {
        match self {
            Self::Block(val) => (EbmlId::Block, val.index, val.id),
            Self::BlockVirtual(val) => (EbmlId::BlockVirtual, val.index, val.id),
            Self::BlockAdditions(val) => (EbmlId::BlockAdditions, val.index, val.id),
            Self::BlockDuration(val) => (EbmlId::BlockDuration, val.index, val.id),
            Self::ReferencePriority(val) => (EbmlId::ReferencePriority, val.index, val.id),
            Self::ReferenceBlock(val) => (EbmlId::ReferenceBlock, val.index, val.id),
            Self::ReferenceVirtual(val) => (EbmlId::ReferenceVirtual, val.index, val.id),
            Self::CodecState(val) => (EbmlId::CodecState, val.index, val.id),
            Self::DiscardPadding(val) => (EbmlId::DiscardPadding, val.index, val.id),
            Self::Slices(val) => (EbmlId::Slices, val.index, val.id),
            Self::ReferenceFrame(val) => (EbmlId::ReferenceFrame, val.index, val.id),
        }
    }

    /// Write this child's frame.
    #[verifier::rlimit(60)]
    #[verifier::spinoff_prover]
    pub fn write_el(&self, w: &mut Vec<u8>) -> (r: Result<usize, MatroskaError>)
        ensures
            r is Ok <==> el_ok(self.model()),
            r is Ok ==> final(w)@ == old(w)@ + el_bytes(self.model())
                && r->Ok_0 == el_bytes(self.model()).len(),
            r is Err ==> final(w)@ == old(w)@ && r->Err_0 is InvalidVarIntMoreThanVintMax,
    {
        match self {
            Self::Block(val) => crate::io::write_el_bin(w, 0xA1, (*val.v).as_slice()),
            Self::BlockVirtual(val) => crate::io::write_el_bin(w, 0xA2, (*val.v).as_slice()),
            Self::BlockAdditions(val) => (*val.v).write_blocking(w),
            Self::BlockDuration(val) => crate::io::write_el_uint(w, 0x9B, &*val.v),
            Self::ReferencePriority(val) => crate::io::write_el_uint(w, 0xFA, &*val.v),
            Self::ReferenceBlock(val) => crate::io::write_el_int(w, 0xFB, &*val.v),
            Self::ReferenceVirtual(val) => crate::io::write_el_int(w, 0xFD, &*val.v),
            Self::CodecState(val) => crate::io::write_el_bin(w, 0xA4, (*val.v).as_slice()),
            Self::DiscardPadding(val) => crate::io::write_el_int(w, 0x75A2, &*val.v),
            Self::Slices(val) => (*val.v).write_blocking(w),
            Self::ReferenceFrame(val) => (*val.v).write_blocking(w),
        }
    }
}

impl EbmlField for BlockGroupFields {
    open spec fn model(&self) -> FieldModel {
        match self {
            Self::Block(e) => FieldModel::Bin { id: 0xA1, idx: e.index, key: e.id, b: (*e.v)@ },
            Self::BlockVirtual(e) => FieldModel::Bin { id: 0xA2, idx: e.index, key: e.id, b: (*e.v)@ },
            Self::BlockAdditions(e) => FieldModel::Node { id: 0x75A1, idx: e.index, key: e.id, children: (*e.v).model() },
            Self::BlockDuration(e) => FieldModel::UInt { id: 0x9B, idx: e.index, key: e.id, v: *e.v },
            Self::ReferencePriority(e) => FieldModel::UInt { id: 0xFA, idx: e.index, key: e.id, v: *e.v },
            Self::ReferenceBlock(e) => FieldModel::SInt { id: 0xFB, idx: e.index, key: e.id, v: *e.v },
            Self::ReferenceVirtual(e) => FieldModel::SInt { id: 0xFD, idx: e.index, key: e.id, v: *e.v },
            Self::CodecState(e) => FieldModel::Bin { id: 0xA4, idx: e.index, key: e.id, b: (*e.v)@ },
            Self::DiscardPadding(e) => FieldModel::SInt { id: 0x75A2, idx: e.index, key: e.id, v: *e.v },
            Self::Slices(e) => FieldModel::Node { id: 0x8E, idx: e.index, key: e.id, children: (*e.v).model() },
            Self::ReferenceFrame(e) => FieldModel::Node { id: 0xC8, idx: e.index, key: e.id, children: (*e.v).model() },
        }
    }

    fn sort_key(&self) -> (r: (Option<u64>, u64)) {
        match self {
            Self::Block(e) => (e.index, e.id),
            Self::BlockVirtual(e) => (e.index, e.id),
            Self::BlockAdditions(e) => (e.index, e.id),
            Self::BlockDuration(e) => (e.index, e.id),
            Self::ReferencePriority(e) => (e.index, e.id),
            Self::ReferenceBlock(e) => (e.index, e.id),
            Self::ReferenceVirtual(e) => (e.index, e.id),
            Self::CodecState(e) => (e.index, e.id),
            Self::DiscardPadding(e) => (e.index, e.id),
            Self::Slices(e) => (e.index, e.id),
            Self::ReferenceFrame(e) => (e.index, e.id),
        }
    }
}

/// The `BlockAdditions` structural element.
#[derive(Debug)]
pub struct BlockAdditions {
    pub size: u64,
    pub block_more: Vec<Ebml<BlockMore>>,
}

/// The models of the `block_more` children of a `BlockAdditions`.
pub open spec fn blockadditions_block_more_models(s: Seq<Ebml<BlockMore>>) -> Seq<FieldModel> {
    s.map_values(|e: Ebml<BlockMore>| FieldModel::Node { id: 0xA6, idx: e.index, key: e.id, children: (*e.v).model() })
}

impl BlockAdditions {
    /// The models of the children, in declaration order.
    #[verifier::opaque]
    pub open spec fn raw_model(self) -> Seq<FieldModel>
    {
        blockadditions_block_more_models(self.block_more@)
    }

    /// The children in emission order.
    #[verifier::opaque]
    pub open spec fn model(self) -> Seq<FieldModel>
    {
        sort_fields_spec(self.raw_model())
    }

    /// Append the `block_more` child values to a field run.
    #[verifier::loop_isolation(false)]
    fn push_block_more(&self, v: &mut Vec<BlockAdditionsFields>)
        ensures
            models_of::<BlockAdditionsFields>(final(v)@) == models_of::<BlockAdditionsFields>(old(v)@) + blockadditions_block_more_models(self.block_more@),
    {
        let ghost base = models_of::<BlockAdditionsFields>(v@);
        let mut i: usize = 0;
        while i < self.block_more.len()
            invariant
                i <= self.block_more@.len(),
                models_of::<BlockAdditionsFields>(v@) == base + blockadditions_block_more_models(self.block_more@.take(i as int)),
            decreases self.block_more@.len() - i,
        {
            let e = &self.block_more[i];
            let d = (&*e.v).duplicate();
            proof {
                reveal(BlockMore::model);
                assert(d.model() == (*e.v).model());
            }
            let ghost prevv = v@;
            v.push(BlockAdditionsFields::BlockMore(Ebml { index: e.index, v: Box::new(d), id: e.id }));
            proof {
                assert(self.block_more@.take(i + 1) =~= self.block_more@.take(i as int).push(self.block_more@[i as int]));
                assert(models_of::<BlockAdditionsFields>(v@) =~= models_of::<BlockAdditionsFields>(prevv).push(v@.last().model()));
                assert(blockadditions_block_more_models(self.block_more@.take(i + 1)) =~= blockadditions_block_more_models(self.block_more@.take(i as int)).push(v@.last().model()));
                assert(base + blockadditions_block_more_models(self.block_more@.take(i + 1)) =~= (base + blockadditions_block_more_models(self.block_more@.take(i as int))).push(v@.last().model()));
            }
            i += 1;
        }
        proof {
            assert(self.block_more@.take(self.block_more@.len() as int) =~= self.block_more@);
        }
    }

    /// The present children, each paired with its ID, in emission order.
    #[verifier::rlimit(100)]
    #[verifier::spinoff_prover]
    pub fn elements(&self) -> (r: Vec<BlockAdditionsFields>)
        ensures
            models_of::<BlockAdditionsFields>(r@) == self.model(),
    {
        let mut v: Vec<BlockAdditionsFields> = Vec::new();
        proof {
            assert(models_of::<BlockAdditionsFields>(v@) =~= Seq::<FieldModel>::empty());
        }
        self.push_block_more(&mut v);
        proof {
            reveal(BlockAdditions::raw_model);
            reveal(BlockAdditions::model);
            assert(Seq::<FieldModel>::empty() + blockadditions_block_more_models(self.block_more@) =~= blockadditions_block_more_models(self.block_more@));
            assert(models_of::<BlockAdditionsFields>(v@) == self.raw_model());
        }
        sort_fields(v)
    }

    /// A deep copy of the `block_more` slot.
    #[verifier::loop_isolation(false)]
    fn dup_block_more(&self) -> (r: Vec<Ebml<BlockMore>>)
        ensures
            blockadditions_block_more_models(r@) == blockadditions_block_more_models(self.block_more@),
    {
        let mut out: Vec<Ebml<BlockMore>> = Vec::new();
        let mut i: usize = 0;
        while i < self.block_more.len()
            invariant
                i <= self.block_more@.len(),
                blockadditions_block_more_models(out@) == blockadditions_block_more_models(self.block_more@.take(i as int)),
            decreases self.block_more@.len() - i,
        {
            let e = &self.block_more[i];
            let d = (&*e.v).duplicate();
            proof {
                reveal(BlockMore::model);
                assert(d.model() == (*e.v).model());
            }
            let ghost prevo = out@;
            out.push(Ebml { index: e.index, v: Box::new(d), id: e.id });
            proof {
                assert(self.block_more@.take(i + 1) =~= self.block_more@.take(i as int).push(self.block_more@[i as int]));
                assert(out@.drop_last() =~= prevo);
                assert(self.block_more@.take(i + 1).drop_last() =~= self.block_more@.take(i as int));
                assert(FieldModel::Node { id: 0xA6, idx: (out@.last()).index, key: (out@.last()).id, children: (*(out@.last()).v).model() } == FieldModel::Node { id: 0xA6, idx: (self.block_more@[i as int]).index, key: (self.block_more@[i as int]).id, children: (*(self.block_more@[i as int]).v).model() });
                assert(blockadditions_block_more_models(out@) =~= blockadditions_block_more_models(prevo).push(FieldModel::Node { id: 0xA6, idx: (out@.last()).index, key: (out@.last()).id, children: (*(out@.last()).v).model() }));
                assert(blockadditions_block_more_models(self.block_more@.take(i + 1)) =~= blockadditions_block_more_models(self.block_more@.take(i as int)).push(FieldModel::Node { id: 0xA6, idx: (self.block_more@[i as int]).index, key: (self.block_more@[i as int]).id, children: (*(self.block_more@[i as int]).v).model() }));
            }
            i += 1;
        }
        proof {
            assert(self.block_more@.take(self.block_more@.len() as int) =~= self.block_more@);
        }
        out
    }

    /// A deep copy with the same children, positions, and keys.
    #[verifier::rlimit(100)]
    #[verifier::spinoff_prover]
    pub fn duplicate(&self) -> (r: Self)
        ensures
            r.raw_model() == self.raw_model(),
            r.size == self.size,
    {
        let r = BlockAdditions {
            size: self.size,
            block_more: self.dup_block_more(),
        };
        proof {
            reveal(BlockAdditions::raw_model);
            assert(r.raw_model() == self.raw_model());
        }
        r
    }
}

impl BlockAdditions {
    /// Serialise the whole element: body to a scratch buffer first, then
    /// the header with the now-known length, then the body.
    pub fn write_blocking(&self, w: &mut Vec<u8>) -> (r: Result<usize, MatroskaError>)
        ensures
            r is Ok <==> body_ok_rec(self.model()) && cat_bytes(self.model()).len() < 0xFFFFFFFFFFFFFF,
            r is Ok ==> final(w)@ == old(w)@ + node_frame_bytes(0x75A1, cat_bytes(self.model()))
                && r->Ok_0 == node_frame_bytes(0x75A1, cat_bytes(self.model())).len(),
            r is Err ==> final(w)@ == old(w)@ && r->Err_0 is InvalidVarIntMoreThanVintMax,
    {
        let mut buf: Vec<u8> = Vec::new();
        match self.write_body_blocking(&mut buf) {
            Ok(_) => {},
            Err(e) => {
                return Err(e);
            },
        }
        let start = w.len();
        match crate::io::write_element_id_size(w, 0x75A1, buf.len() as u64) {
            Ok(_) => {},
            Err(e) => {
                return Err(e);
            },
        }
        w.append(&mut buf);
        Ok(w.len() - start)
    }

    /// Write this element's header with the given body size.
    pub fn write_header_blocking(&self, w: &mut Vec<u8>, size: u64) -> (r: Result<usize, MatroskaError>)
        ensures
            r is Ok <==> crate::io::size_encodable(size),
            r is Ok ==> final(w)@ == old(w)@ + crate::io::header_bytes(0x75A1, size)
                && r->Ok_0 == crate::io::header_bytes(0x75A1, size).len(),
            r is Err ==> final(w)@ == old(w)@ && r->Err_0 is InvalidVarIntMoreThanVintMax,
    {
        crate::io::write_element_id_size(w, 0x75A1, size)
    }

    /// Write the body: every present child, in emission order.
    #[verifier::loop_isolation(false)]
    #[verifier::rlimit(60)]
    #[verifier::spinoff_prover]
    pub fn write_body_blocking(&self, w: &mut Vec<u8>) -> (r: Result<usize, MatroskaError>)
        ensures
            r is Ok <==> body_ok_rec(self.model()),
            r is Ok ==> final(w)@ == old(w)@ + cat_bytes(self.model())
                && r->Ok_0 == cat_bytes(self.model()).len(),
            r is Err ==> r->Err_0 is InvalidVarIntMoreThanVintMax,
    {
        let fields = self.elements();
        let start = w.len();
        let ghost ms = self.model();
        let mut i: usize = 0;
        while i < fields.len()
            invariant
                i <= fields@.len(),
                models_of::<BlockAdditionsFields>(fields@) == ms,
                w@ == old(w)@ + cat_bytes(ms.take(i as int)),
                body_ok_rec(ms.take(i as int)),
            decreases fields@.len() - i,
        {
            proof {
                assert(models_of::<BlockAdditionsFields>(fields@)[i as int] == ms[i as int]);
            }
            match fields[i].write_el(w) {
                Ok(_) => {},
                Err(e) => {
                    proof {
                        lemma_body_ok_forall(ms);
                    }
                    return Err(e);
                },
            }
            proof {
                assert(ms.take(i + 1) =~= ms.take(i as int).push(ms[i as int]));
                lemma_cat_snoc(ms.take(i as int), ms[i as int]);
            }
            i += 1;
        }
        proof {
            assert(ms.take(ms.len() as int) =~= ms);
            lemma_body_ok_forall(ms);
        }
        Ok(w.len() - start)
    }
}

/// One present child of a `BlockAdditions`, paired with its value.
#[derive(Debug)]
pub enum BlockAdditionsFields {
    BlockMore(Ebml<BlockMore>),
}

impl BlockAdditionsFields {
    /// The child's element ID and its two ordering slots.
    #[verifier::rlimit(60)]
    #[verifier::spinoff_prover]
    pub fn index(&self) -> (r: (EbmlId, Option<u64>, u64))
        ensures
            r.0.spec_u64() == self.model().eid(),
            r.1 == self.model().idx(),
            r.2 == self.model().key(),
    {
        match self {
            Self::BlockMore(val) => (EbmlId::BlockMore, val.index, val.id),
        }
    }

    /// Write this child's frame.
    #[verifier::rlimit(60)]
    #[verifier::spinoff_prover]
    pub fn write_el(&self, w: &mut Vec<u8>) -> (r: Result<usize, MatroskaError>)
        ensures
            r is Ok <==> el_ok(self.model()),
            r is Ok ==> final(w)@ == old(w)@ + el_bytes(self.model())
                && r->Ok_0 == el_bytes(self.model()).len(),
            r is Err ==> final(w)@ == old(w)@ && r->Err_0 is InvalidVarIntMoreThanVintMax,
    {
        match self {
            Self::BlockMore(val) => (*val.v).write_blocking(w),
        }
    }
}

impl EbmlField for BlockAdditionsFields {
    open spec fn model(&self) -> FieldModel {
        match self {
            Self::BlockMore(e) => FieldModel::Node { id: 0xA6, idx: e.index, key: e.id, children: (*e.v).model() },
        }
    }

    fn sort_key(&self) -> (r: (Option<u64>, u64)) {
        match self {
            Self::BlockMore(e) => (e.index, e.id),
        }
    }
}

/// The `BlockMore` structural element.
#[derive(Debug)]
pub struct BlockMore {
    pub size: u64,
    pub block_additional: Ebml<Vec<u8>>,
    pub block_add_id: Ebml<u64>,
}

impl BlockMore {
    /// The models of the children, in declaration order.
    #[verifier::opaque]
    pub open spec fn raw_model(self) -> Seq<FieldModel>
    {
        seq![FieldModel::Bin { id: 0xA5, idx: self.block_additional.index, key: self.block_additional.id, b: (*self.block_additional.v)@ }]
            + seq![FieldModel::UInt { id: 0xEE, idx: self.block_add_id.index, key: self.block_add_id.id, v: *self.block_add_id.v }]
    }

    /// The children in emission order.
    #[verifier::opaque]
    pub open spec fn model(self) -> Seq<FieldModel>
    {
        sort_fields_spec(self.raw_model())
    }

    /// Append the `block_additional` child values to a field run.
    #[verifier::loop_isolation(false)]
    fn push_block_additional(&self, v: &mut Vec<BlockMoreFields>)
        ensures
            models_of::<BlockMoreFields>(final(v)@) == models_of::<BlockMoreFields>(old(v)@) + seq![FieldModel::Bin { id: 0xA5, idx: self.block_additional.index, key: self.block_additional.id, b: (*self.block_additional.v)@ }],
    {
        let ghost prevv = v@;
        v.push(BlockMoreFields::BlockAdditional(crate::dup_ebml_bytes(&self.block_additional)));
        proof {
            assert(models_of::<BlockMoreFields>(v@) =~= models_of::<BlockMoreFields>(prevv).push(v@.last().model()));
            assert(models_of::<BlockMoreFields>(prevv).push(v@.last().model()) =~= models_of::<BlockMoreFields>(prevv) + seq![FieldModel::Bin { id: 0xA5, idx: self.block_additional.index, key: self.block_additional.id, b: (*self.block_additional.v)@ }]);
        }
    }

    /// Append the `block_add_id` child values to a field run.
    #[verifier::loop_isolation(false)]
    fn push_block_add_id(&self, v: &mut Vec<BlockMoreFields>)
        ensures
            models_of::<BlockMoreFields>(final(v)@) == models_of::<BlockMoreFields>(old(v)@) + seq![FieldModel::UInt { id: 0xEE, idx: self.block_add_id.index, key: self.block_add_id.id, v: *self.block_add_id.v }],
    {
        let ghost prevv = v@;
        v.push(BlockMoreFields::BlockAddId(crate::dup_ebml_copy(&self.block_add_id)));
        proof {
            assert(models_of::<BlockMoreFields>(v@) =~= models_of::<BlockMoreFields>(prevv).push(v@.last().model()));
            assert(models_of::<BlockMoreFields>(prevv).push(v@.last().model()) =~= models_of::<BlockMoreFields>(prevv) + seq![FieldModel::UInt { id: 0xEE, idx: self.block_add_id.index, key: self.block_add_id.id, v: *self.block_add_id.v }]);
        }
    }

    /// The present children, each paired with its ID, in emission order.
    #[verifier::rlimit(100)]
    #[verifier::spinoff_prover]
    pub fn elements(&self) -> (r: Vec<BlockMoreFields>)
        ensures
            models_of::<BlockMoreFields>(r@) == self.model(),
    {
        let mut v: Vec<BlockMoreFields> = Vec::new();
        proof {
            assert(models_of::<BlockMoreFields>(v@) =~= Seq::<FieldModel>::empty());
        }
        self.push_block_additional(&mut v);
        self.push_block_add_id(&mut v);
        proof {
            reveal(BlockMore::raw_model);
            reveal(BlockMore::model);
            assert(Seq::<FieldModel>::empty() + seq![FieldModel::Bin { id: 0xA5, idx: self.block_additional.index, key: self.block_additional.id, b: (*self.block_additional.v)@ }] =~= seq![FieldModel::Bin { id: 0xA5, idx: self.block_additional.index, key: self.block_additional.id, b: (*self.block_additional.v)@ }]);
            assert(models_of::<BlockMoreFields>(v@) == self.raw_model());
        }
        sort_fields(v)
    }

    /// A deep copy of the `block_additional` slot.
    #[verifier::loop_isolation(false)]
    fn dup_block_additional(&self) -> (r: Ebml<Vec<u8>>)
        ensures
            seq![FieldModel::Bin { id: 0xA5, idx: r.index, key: r.id, b: (*r.v)@ }] == seq![FieldModel::Bin { id: 0xA5, idx: self.block_additional.index, key: self.block_additional.id, b: (*self.block_additional.v)@ }],
    {
        crate::dup_ebml_bytes(&self.block_additional)
    }

    /// A deep copy of the `block_add_id` slot.
    #[verifier::loop_isolation(false)]
    fn dup_block_add_id(&self) -> (r: Ebml<u64>)
        ensures
            seq![FieldModel::UInt { id: 0xEE, idx: r.index, key: r.id, v: *r.v }] == seq![FieldModel::UInt { id: 0xEE, idx: self.block_add_id.index, key: self.block_add_id.id, v: *self.block_add_id.v }],
    {
        crate::dup_ebml_copy(&self.block_add_id)
    }

    /// A deep copy with the same children, positions, and keys.
    #[verifier::rlimit(100)]
    #[verifier::spinoff_prover]
    pub fn duplicate(&self) -> (r: Self)
        ensures
            r.raw_model() == self.raw_model(),
            r.size == self.size,
    {
        let r = BlockMore {
            size: self.size,
            block_additional: self.dup_block_additional(),
            block_add_id: self.dup_block_add_id(),
        };
        proof {
            reveal(BlockMore::raw_model);
            assert(r.raw_model() == self.raw_model());
        }
        r
    }
}

impl BlockMore {
    /// Serialise the whole element: body to a scratch buffer first, then
    /// the header with the now-known length, then the body.
    pub fn write_blocking(&self, w: &mut Vec<u8>) -> (r: Result<usize, MatroskaError>)
        ensures
            r is Ok <==> body_ok_rec(self.model()) && cat_bytes(self.model()).len() < 0xFFFFFFFFFFFFFF,
            r is Ok ==> final(w)@ == old(w)@ + node_frame_bytes(0xA6, cat_bytes(self.model()))
                && r->Ok_0 == node_frame_bytes(0xA6, cat_bytes(self.model())).len(),
            r is Err ==> final(w)@ == old(w)@ && r->Err_0 is InvalidVarIntMoreThanVintMax,
    {
        let mut buf: Vec<u8> = Vec::new();
        match self.write_body_blocking(&mut buf) {
            Ok(_) => {},
            Err(e) => {
                return Err(e);
            },
        }
        let start = w.len();
        match crate::io::write_element_id_size(w, 0xA6, buf.len() as u64) {
            Ok(_) => {},
            Err(e) => {
                return Err(e);
            },
        }
        w.append(&mut buf);
        Ok(w.len() - start)
    }

    /// Write this element's header with the given body size.
    pub fn write_header_blocking(&self, w: &mut Vec<u8>, size: u64) -> (r: Result<usize, MatroskaError>)
        ensures
            r is Ok <==> crate::io::size_encodable(size),
            r is Ok ==> final(w)@ == old(w)@ + crate::io::header_bytes(0xA6, size)
                && r->Ok_0 == crate::io::header_bytes(0xA6, size).len(),
            r is Err ==> final(w)@ == old(w)@ && r->Err_0 is InvalidVarIntMoreThanVintMax,
    {
        crate::io::write_element_id_size(w, 0xA6, size)
    }

    /// Write the body: every present child, in emission order.
    #[verifier::loop_isolation(false)]
    #[verifier::rlimit(60)]
    #[verifier::spinoff_prover]
    pub fn write_body_blocking(&self, w: &mut Vec<u8>) -> (r: Result<usize, MatroskaError>)
        ensures
            r is Ok <==> body_ok_rec(self.model()),
            r is Ok ==> final(w)@ == old(w)@ + cat_bytes(self.model())
                && r->Ok_0 == cat_bytes(self.model()).len(),
            r is Err ==> r->Err_0 is InvalidVarIntMoreThanVintMax,
    {
        let fields = self.elements();
        let start = w.len();
        let ghost ms = self.model();
        let mut i: usize = 0;
        while i < fields.len()
            invariant
                i <= fields@.len(),
                models_of::<BlockMoreFields>(fields@) == ms,
                w@ == old(w)@ + cat_bytes(ms.take(i as int)),
                body_ok_rec(ms.take(i as int)),
            decreases fields@.len() - i,
        {
            proof {
                assert(models_of::<BlockMoreFields>(fields@)[i as int] == ms[i as int]);
            }
            match fields[i].write_el(w) {
                Ok(_) => {},
                Err(e) => {
                    proof {
                        lemma_body_ok_forall(ms);
                    }
                    return Err(e);
                },
            }
            proof {
                assert(ms.take(i + 1) =~= ms.take(i as int).push(ms[i as int]));
                lemma_cat_snoc(ms.take(i as int), ms[i as int]);
            }
            i += 1;
        }
        proof {
            assert(ms.take(ms.len() as int) =~= ms);
            lemma_body_ok_forall(ms);
        }
        Ok(w.len() - start)
    }
}

/// One present child of a `BlockMore`, paired with its value.
#[derive(Debug)]
pub enum BlockMoreFields {
    BlockAdditional(Ebml<Vec<u8>>),
    BlockAddId(Ebml<u64>),
}

impl BlockMoreFields {
    /// The child's element ID and its two ordering slots.
    #[verifier::rlimit(60)]
    #[verifier::spinoff_prover]
    pub fn index(&self) -> (r: (EbmlId, Option<u64>, u64))
        ensures
            r.0.spec_u64() == self.model().eid(),
            r.1 == self.model().idx(),
            r.2 == self.model().key(),
    {
        match self {
            Self::BlockAdditional(val) => (EbmlId::BlockAdditional, val.index, val.id),
            Self::BlockAddId(val) => (EbmlId::BlockAddId, val.index, val.id),
        }
    }

    /// Write this child's frame.
    #[verifier::rlimit(60)]
    #[verifier::spinoff_prover]
    pub fn write_el(&self, w: &mut Vec<u8>) -> (r: Result<usize, MatroskaError>)
        ensures
            r is Ok <==> el_ok(self.model()),
            r is Ok ==> final(w)@ == old(w)@ + el_bytes(self.model())
                && r->Ok_0 == el_bytes(self.model()).len(),
            r is Err ==> final(w)@ == old(w)@ && r->Err_0 is InvalidVarIntMoreThanVintMax,
    {
        match self {
            Self::BlockAdditional(val) => crate::io::write_el_bin(w, 0xA5, (*val.v).as_slice()),
            Self::BlockAddId(val) => crate::io::write_el_uint(w, 0xEE, &*val.v),
        }
    }
}

impl EbmlField for BlockMoreFields {
    open spec fn model(&self) -> FieldModel {
        match self {
            Self::BlockAdditional(e) => FieldModel::Bin { id: 0xA5, idx: e.index, key: e.id, b: (*e.v)@ },
            Self::BlockAddId(e) => FieldModel::UInt { id: 0xEE, idx: e.index, key: e.id, v: *e.v },
        }
    }

    fn sort_key(&self) -> (r: (Option<u64>, u64)) {
        match self {
            Self::BlockAdditional(e) => (e.index, e.id),
            Self::BlockAddId(e) => (e.index, e.id),
        }
    }
}

/// The `Slices` structural element.
#[derive(Debug)]
pub struct Slices {
    pub size: u64,
    pub time_slice: Vec<Ebml<TimeSlice>>,
}

/// The models of the `time_slice` children of a `Slices`.
pub open spec fn slices_time_slice_models(s: Seq<Ebml<TimeSlice>>) -> Seq<FieldModel> {
    s.map_values(|e: Ebml<TimeSlice>| FieldModel::Node { id: 0xE8, idx: e.index, key: e.id, children: (*e.v).model() })
}

impl Slices {
    /// The models of the children, in declaration order.
    #[verifier::opaque]
    pub open spec fn raw_model(self) -> Seq<FieldModel>
    {
        slices_time_slice_models(self.time_slice@)
    }

    /// The children in emission order.
    #[verifier::opaque]
    pub open spec fn model(self) -> Seq<FieldModel>
    {
        sort_fields_spec(self.raw_model())
    }

    /// Append the `time_slice` child values to a field run.
    #[verifier::loop_isolation(false)]
    fn push_time_slice(&self, v: &mut Vec<SlicesFields>)
        ensures
            models_of::<SlicesFields>(final(v)@) == models_of::<SlicesFields>(old(v)@) + slices_time_slice_models(self.time_slice@),
    {
        let ghost base = models_of::<SlicesFields>(v@);
        let mut i: usize = 0;
        while i < self.time_slice.len()
            invariant
                i <= self.time_slice@.len(),
                models_of::<SlicesFields>(v@) == base + slices_time_slice_models(self.time_slice@.take(i as int)),
            decreases self.time_slice@.len() - i,
        {
            let e = &self.time_slice[i];
            let d = (&*e.v).duplicate();
            proof {
                reveal(TimeSlice::model);
                assert(d.model() == (*e.v).model());
            }
            let ghost prevv = v@;
            v.push(SlicesFields::TimeSlice(Ebml { index: e.index, v: Box::new(d), id: e.id }));
            proof {
                assert(self.time_slice@.take(i + 1) =~= self.time_slice@.take(i as int).push(self.time_slice@[i as int]));
                assert(models_of::<SlicesFields>(v@) =~= models_of::<SlicesFields>(prevv).push(v@.last().model()));
                assert(slices_time_slice_models(self.time_slice@.take(i + 1)) =~= slices_time_slice_models(self.time_slice@.take(i as int)).push(v@.last().model()));
                assert(base + slices_time_slice_models(self.time_slice@.take(i + 1)) =~= (base + slices_time_slice_models(self.time_slice@.take(i as int))).push(v@.last().model()));
            }
            i += 1;
        }
        proof {
            assert(self.time_slice@.take(self.time_slice@.len() as int) =~= self.time_slice@);
        }
    }

    /// The present children, each paired with its ID, in emission order.
    #[verifier::rlimit(100)]
    #[verifier::spinoff_prover]
    pub fn elements(&self) -> (r: Vec<SlicesFields>)
        ensures
            models_of::<SlicesFields>(r@) == self.model(),
    {
        let mut v: Vec<SlicesFields> = Vec::new();
        proof {
            assert(models_of::<SlicesFields>(v@) =~= Seq::<FieldModel>::empty());
        }
        self.push_time_slice(&mut v);
        proof {
            reveal(Slices::raw_model);
            reveal(Slices::model);
            assert(Seq::<FieldModel>::empty() + slices_time_slice_models(self.time_slice@) =~= slices_time_slice_models(self.time_slice@));
            assert(models_of::<SlicesFields>(v@) == self.raw_model());
        }
        sort_fields(v)
    }

    /// A deep copy of the `time_slice` slot.
    #[verifier::loop_isolation(false)]
    fn dup_time_slice(&self) -> (r: Vec<Ebml<TimeSlice>>)
        ensures
            slices_time_slice_models(r@) == slices_time_slice_models(self.time_slice@),
    {
        let mut out: Vec<Ebml<TimeSlice>> = Vec::new();
        let mut i: usize = 0;
        while i < self.time_slice.len()
            invariant
                i <= self.time_slice@.len(),
                slices_time_slice_models(out@) == slices_time_slice_models(self.time_slice@.take(i as int)),
            decreases self.time_slice@.len() - i,
        {
            let e = &self.time_slice[i];
            let d = (&*e.v).duplicate();
            proof {
                reveal(TimeSlice::model);
                assert(d.model() == (*e.v).model());
            }
            let ghost prevo = out@;
            out.push(Ebml { index: e.index, v: Box::new(d), id: e.id });
            proof {
                assert(self.time_slice@.take(i + 1) =~= self.time_slice@.take(i as int).push(self.time_slice@[i as int]));
                assert(out@.drop_last() =~= prevo);
                assert(self.time_slice@.take(i + 1).drop_last() =~= self.time_slice@.take(i as int));
                assert(FieldModel::Node { id: 0xE8, idx: (out@.last()).index, key: (out@.last()).id, children: (*(out@.last()).v).model() } == FieldModel::Node { id: 0xE8, idx: (self.time_slice@[i as int]).index, key: (self.time_slice@[i as int]).id, children: (*(self.time_slice@[i as int]).v).model() });
                assert(slices_time_slice_models(out@) =~= slices_time_slice_models(prevo).push(FieldModel::Node { id: 0xE8, idx: (out@.last()).index, key: (out@.last()).id, children: (*(out@.last()).v).model() }));
                assert(slices_time_slice_models(self.time_slice@.take(i + 1)) =~= slices_time_slice_models(self.time_slice@.take(i as int)).push(FieldModel::Node { id: 0xE8, idx: (self.time_slice@[i as int]).index, key: (self.time_slice@[i as int]).id, children: (*(self.time_slice@[i as int]).v).model() }));
            }
            i += 1;
        }
        proof {
            assert(self.time_slice@.take(self.time_slice@.len() as int) =~= self.time_slice@);
        }
        out
    }

    /// A deep copy with the same children, positions, and keys.
    #[verifier::rlimit(100)]
    #[verifier::spinoff_prover]
    pub fn duplicate(&self) -> (r: Self)
        ensures
            r.raw_model() == self.raw_model(),
            r.size == self.size,
    {
        let r = Slices {
            size: self.size,
            time_slice: self.dup_time_slice(),
        };
        proof {
            reveal(Slices::raw_model);
            assert(r.raw_model() == self.raw_model());
        }
        r
    }
}

impl Slices {
    /// Serialise the whole element: body to a scratch buffer first, then
    /// the header with the now-known length, then the body.
    pub fn write_blocking(&self, w: &mut Vec<u8>) -> (r: Result<usize, MatroskaError>)
        ensures
            r is Ok <==> body_ok_rec(self.model()) && cat_bytes(self.model()).len() < 0xFFFFFFFFFFFFFF,
            r is Ok ==> final(w)@ == old(w)@ + node_frame_bytes(0x8E, cat_bytes(self.model()))
                && r->Ok_0 == node_frame_bytes(0x8E, cat_bytes(self.model())).len(),
            r is Err ==> final(w)@ == old(w)@ && r->Err_0 is InvalidVarIntMoreThanVintMax,
    {
        let mut buf: Vec<u8> = Vec::new();
        match self.write_body_blocking(&mut buf) {
            Ok(_) => {},
            Err(e) => {
                return Err(e);
            },
        }
        let start = w.len();
        match crate::io::write_element_id_size(w, 0x8E, buf.len() as u64) {
            Ok(_) => {},
            Err(e) => {
                return Err(e);
            },
        }
        w.append(&mut buf);
        Ok(w.len() - start)
    }

    /// Write this element's header with the given body size.
    pub fn write_header_blocking(&self, w: &mut Vec<u8>, size: u64) -> (r: Result<usize, MatroskaError>)
        ensures
            r is Ok <==> crate::io::size_encodable(size),
            r is Ok ==> final(w)@ == old(w)@ + crate::io::header_bytes(0x8E, size)
                && r->Ok_0 == crate::io::header_bytes(0x8E, size).len(),
            r is Err ==> final(w)@ == old(w)@ && r->Err_0 is InvalidVarIntMoreThanVintMax,
    {
        crate::io::write_element_id_size(w, 0x8E, size)
    }

    /// Write the body: every present child, in emission order.
    #[verifier::loop_isolation(false)]
    #[verifier::rlimit(60)]
    #[verifier::spinoff_prover]
    pub fn write_body_blocking(&self, w: &mut Vec<u8>) -> (r: Result<usize, MatroskaError>)
        ensures
            r is Ok <==> body_ok_rec(self.model()),
            r is Ok ==> final(w)@ == old(w)@ + cat_bytes(self.model())
                && r->Ok_0 == cat_bytes(self.model()).len(),
            r is Err ==> r->Err_0 is InvalidVarIntMoreThanVintMax,
    {
        let fields = self.elements();
        let start = w.len();
        let ghost ms = self.model();
        let mut i: usize = 0;
        while i < fields.len()
            invariant
                i <= fields@.len(),
                models_of::<SlicesFields>(fields@) == ms,
                w@ == old(w)@ + cat_bytes(ms.take(i as int)),
                body_ok_rec(ms.take(i as int)),
            decreases fields@.len() - i,
        {
            proof {
                assert(models_of::<SlicesFields>(fields@)[i as int] == ms[i as int]);
            }
            match fields[i].write_el(w) {
                Ok(_) => {},
                Err(e) => {
                    proof {
                        lemma_body_ok_forall(ms);
                    }
                    return Err(e);
                },
            }
            proof {
                assert(ms.take(i + 1) =~= ms.take(i as int).push(ms[i as int]));
                lemma_cat_snoc(ms.take(i as int), ms[i as int]);
            }
            i += 1;
        }
        proof {
            assert(ms.take(ms.len() as int) =~= ms);
            lemma_body_ok_forall(ms);
        }
        Ok(w.len() - start)
    }
}

/// One present child of a `Slices`, paired with its value.
#[derive(Debug)]
pub enum SlicesFields {
    TimeSlice(Ebml<TimeSlice>),
}

impl SlicesFields {
    /// The child's element ID and its two ordering slots.
    #[verifier::rlimit(60)]
    #[verifier::spinoff_prover]
    pub fn index(&self) -> (r: (EbmlId, Option<u64>, u64))
        ensures
            r.0.spec_u64() == self.model().eid(),
            r.1 == self.model().idx(),
            r.2 == self.model().key(),
    {
        match self {
            Self::TimeSlice(val) => (EbmlId::TimeSlice, val.index, val.id),
        }
    }

    /// Write this child's frame.
    #[verifier::rlimit(60)]
    #[verifier::spinoff_prover]
    pub fn write_el(&self, w: &mut Vec<u8>) -> (r: Result<usize, MatroskaError>)
        ensures
            r is Ok <==> el_ok(self.model()),
            r is Ok ==> final(w)@ == old(w)@ + el_bytes(self.model())
                && r->Ok_0 == el_bytes(self.model()).len(),
            r is Err ==> final(w)@ == old(w)@ && r->Err_0 is InvalidVarIntMoreThanVintMax,
    {
        match self {
            Self::TimeSlice(val) => (*val.v).write_blocking(w),
        }
    }
}

impl EbmlField for SlicesFields {
    open spec fn model(&self) -> FieldModel {
        match self {
            Self::TimeSlice(e) => FieldModel::Node { id: 0xE8, idx: e.index, key: e.id, children: (*e.v).model() },
        }
    }

    fn sort_key(&self) -> (r: (Option<u64>, u64)) {
        match self {
            Self::TimeSlice(e) => (e.index, e.id),
        }
    }
}

/// The `TimeSlice` structural element.
#[derive(Debug)]
pub struct TimeSlice {
    pub size: u64,
    pub lace_number: Option<Ebml<u64>>,
    pub frame_number: Option<Ebml<u64>>,
    pub block_addition_id: Option<Ebml<u64>>,
    pub delay: Option<Ebml<u64>>,
    pub slice_duration: Option<Ebml<u64>>,
}

impl TimeSlice {
    /// The models of the children, in declaration order.
    #[verifier::opaque]
    pub open spec fn raw_model(self) -> Seq<FieldModel>
    {
        (match self.lace_number { Some(e) => seq![FieldModel::UInt { id: 0xCC, idx: e.index, key: e.id, v: *e.v }], None => Seq::empty() })
            + (match self.frame_number { Some(e) => seq![FieldModel::UInt { id: 0xCD, idx: e.index, key: e.id, v: *e.v }], None => Seq::empty() })
            + (match self.block_addition_id { Some(e) => seq![FieldModel::UInt { id: 0xCB, idx: e.index, key: e.id, v: *e.v }], None => Seq::empty() })
            + (match self.delay { Some(e) => seq![FieldModel::UInt { id: 0xCE, idx: e.index, key: e.id, v: *e.v }], None => Seq::empty() })
            + (match self.slice_duration { Some(e) => seq![FieldModel::UInt { id: 0xCF, idx: e.index, key: e.id, v: *e.v }], None => Seq::empty() })
    }

    /// The children in emission order.
    #[verifier::opaque]
    pub open spec fn model(self) -> Seq<FieldModel>
    {
        sort_fields_spec(self.raw_model())
    }

    /// Append the `lace_number` child values to a field run.
    #[verifier::loop_isolation(false)]
    fn push_lace_number(&self, v: &mut Vec<TimeSliceFields>)
        ensures
            models_of::<TimeSliceFields>(final(v)@) == models_of::<TimeSliceFields>(old(v)@) + (match &self.lace_number { Some(e) => seq![FieldModel::UInt { id: 0xCC, idx: e.index, key: e.id, v: *e.v }], None => Seq::empty() }),
    {
        match &self.lace_number {
            Some(e) => {
                let ghost prevv = v@;
                v.push(TimeSliceFields::LaceNumber(crate::dup_ebml_copy(e)));
                proof {
                    assert(models_of::<TimeSliceFields>(v@) =~= models_of::<TimeSliceFields>(prevv).push(v@.last().model()));
                    assert(models_of::<TimeSliceFields>(prevv).push(v@.last().model()) =~= models_of::<TimeSliceFields>(prevv) + (match &self.lace_number { Some(e) => seq![FieldModel::UInt { id: 0xCC, idx: e.index, key: e.id, v: *e.v }], None => Seq::empty() }));
                }
            },
            None => {
                proof {
                    assert(models_of::<TimeSliceFields>(v@) =~= models_of::<TimeSliceFields>(v@) + (match &self.lace_number { Some(e) => seq![FieldModel::UInt { id: 0xCC, idx: e.index, key: e.id, v: *e.v }], None => Seq::empty() }));
                }
            },
        }
    }

    /// Append the `frame_number` child values to a field run.
    #[verifier::loop_isolation(false)]
    fn push_frame_number(&self, v: &mut Vec<TimeSliceFields>)
        ensures
            models_of::<TimeSliceFields>(final(v)@) == models_of::<TimeSliceFields>(old(v)@) + (match &self.frame_number { Some(e) => seq![FieldModel::UInt { id: 0xCD, idx: e.index, key: e.id, v: *e.v }], None => Seq::empty() }),
    {
        match &self.frame_number {
            Some(e) => {
                let ghost prevv = v@;
                v.push(TimeSliceFields::FrameNumber(crate::dup_ebml_copy(e)));
                proof {
                    assert(models_of::<TimeSliceFields>(v@) =~= models_of::<TimeSliceFields>(prevv).push(v@.last().model()));
                    assert(models_of::<TimeSliceFields>(prevv).push(v@.last().model()) =~= models_of::<TimeSliceFields>(prevv) + (match &self.frame_number { Some(e) => seq![FieldModel::UInt { id: 0xCD, idx: e.index, key: e.id, v: *e.v }], None => Seq::empty() }));
                }
            },
            None => {
                proof {
                    assert(models_of::<TimeSliceFields>(v@) =~= models_of::<TimeSliceFields>(v@) + (match &self.frame_number { Some(e) => seq![FieldModel::UInt { id: 0xCD, idx: e.index, key: e.id, v: *e.v }], None => Seq::empty() }));
                }
            },
        }
    }

    /// Append the `block_addition_id` child values to a field run.
    #[verifier::loop_isolation(false)]
    fn push_block_addition_id(&self, v: &mut Vec<TimeSliceFields>)
        ensures
            models_of::<TimeSliceFields>(final(v)@) == models_of::<TimeSliceFields>(old(v)@) + (match &self.block_addition_id { Some(e) => seq![FieldModel::UInt { id: 0xCB, idx: e.index, key: e.id, v: *e.v }], None => Seq::empty() }),
    {
        match &self.block_addition_id {
            Some(e) => {
                let ghost prevv = v@;
                v.push(TimeSliceFields::BlockAdditionId(crate::dup_ebml_copy(e)));
                proof {
                    assert(models_of::<TimeSliceFields>(v@) =~= models_of::<TimeSliceFields>(prevv).push(v@.last().model()));
                    assert(models_of::<TimeSliceFields>(prevv).push(v@.last().model()) =~= models_of::<TimeSliceFields>(prevv) + (match &self.block_addition_id { Some(e) => seq![FieldModel::UInt { id: 0xCB, idx: e.index, key: e.id, v: *e.v }], None => Seq::empty() }));
                }
            },
            None => {
                proof {
                    assert(models_of::<TimeSliceFields>(v@) =~= models_of::<TimeSliceFields>(v@) + (match &self.block_addition_id { Some(e) => seq![FieldModel::UInt { id: 0xCB, idx: e.index, key: e.id, v: *e.v }], None => Seq::empty() }));
                }
            },
        }
    }

    /// Append the `delay` child values to a field run.
    #[verifier::loop_isolation(false)]
    fn push_delay(&self, v: &mut Vec<TimeSliceFields>)
        ensures
            models_of::<TimeSliceFields>(final(v)@) == models_of::<TimeSliceFields>(old(v)@) + (match &self.delay { Some(e) => seq![FieldModel::UInt { id: 0xCE, idx: e.index, key: e.id, v: *e.v }], None => Seq::empty() }),
    {
        match &self.delay {
            Some(e) => {
                let ghost prevv = v@;
                v.push(TimeSliceFields::Delay(crate::dup_ebml_copy(e)));
                proof {
                    assert(models_of::<TimeSliceFields>(v@) =~= models_of::<TimeSliceFields>(prevv).push(v@.last().model()));
                    assert(models_of::<TimeSliceFields>(prevv).push(v@.last().model()) =~= models_of::<TimeSliceFields>(prevv) + (match &self.delay { Some(e) => seq![FieldModel::UInt { id: 0xCE, idx: e.index, key: e.id, v: *e.v }], None => Seq::empty() }));
                }
            },
            None => {
                proof {
                    assert(models_of::<TimeSliceFields>(v@) =~= models_of::<TimeSliceFields>(v@) + (match &self.delay { Some(e) => seq![FieldModel::UInt { id: 0xCE, idx: e.index, key: e.id, v: *e.v }], None => Seq::empty() }));
                }
            },
        }
    }

    /// Append the `slice_duration` child values to a field run.
    #[verifier::loop_isolation(false)]
    fn push_slice_duration(&self, v: &mut Vec<TimeSliceFields>)
        ensures
            models_of::<TimeSliceFields>(final(v)@) == models_of::<TimeSliceFields>(old(v)@) + (match &self.slice_duration { Some(e) => seq![FieldModel::UInt { id: 0xCF, idx: e.index, key: e.id, v: *e.v }], None => Seq::empty() }),
    {
        match &self.slice_duration {
            Some(e) => {
                let ghost prevv = v@;
                v.push(TimeSliceFields::SliceDuration(crate::dup_ebml_copy(e)));
                proof {
                    assert(models_of::<TimeSliceFields>(v@) =~= models_of::<TimeSliceFields>(prevv).push(v@.last().model()));
                    assert(models_of::<TimeSliceFields>(prevv).push(v@.last().model()) =~= models_of::<TimeSliceFields>(prevv) + (match &self.slice_duration { Some(e) => seq![FieldModel::UInt { id: 0xCF, idx: e.index, key: e.id, v: *e.v }], None => Seq::empty() }));
                }
            },
            None => {
                proof {
                    assert(models_of::<TimeSliceFields>(v@) =~= models_of::<TimeSliceFields>(v@) + (match &self.slice_duration { Some(e) => seq![FieldModel::UInt { id: 0xCF, idx: e.index, key: e.id, v: *e.v }], None => Seq::empty() }));
                }
            },
        }
    }

    /// The present children, each paired with its ID, in emission order.
    #[verifier::rlimit(100)]
    #[verifier::spinoff_prover]
    pub fn elements(&self) -> (r: Vec<TimeSliceFields>)
        ensures
            models_of::<TimeSliceFields>(r@) == self.model(),
    {
        let mut v: Vec<TimeSliceFields> = Vec::new();
        proof {
            assert(models_of::<TimeSliceFields>(v@) =~= Seq::<FieldModel>::empty());
        }
        self.push_lace_number(&mut v);
        self.push_frame_number(&mut v);
        self.push_block_addition_id(&mut v);
        self.push_delay(&mut v);
        self.push_slice_duration(&mut v);
        proof {
            reveal(TimeSlice::raw_model);
            reveal(TimeSlice::model);
            assert(Seq::<FieldModel>::empty() + (match &self.lace_number { Some(e) => seq![FieldModel::UInt { id: 0xCC, idx: e.index, key: e.id, v: *e.v }], None => Seq::empty() }) =~= (match &self.lace_number { Some(e) => seq![FieldModel::UInt { id: 0xCC, idx: e.index, key: e.id, v: *e.v }], None => Seq::empty() }));
            assert(models_of::<TimeSliceFields>(v@) == self.raw_model());
        }
        sort_fields(v)
    }

    /// A deep copy of the `lace_number` slot.
    #[verifier::loop_isolation(false)]
    fn dup_lace_number(&self) -> (r: Option<Ebml<u64>>)
        ensures
            (match &r { Some(e) => seq![FieldModel::UInt { id: 0xCC, idx: e.index, key: e.id, v: *e.v }], None => Seq::empty() }) == (match &self.lace_number { Some(e) => seq![FieldModel::UInt { id: 0xCC, idx: e.index, key: e.id, v: *e.v }], None => Seq::empty() }),
    {
        match &self.lace_number {
            Some(e) => Some(crate::dup_ebml_copy(e)),
            None => None,
        }
    }

    /// A deep copy of the `frame_number` slot.
    #[verifier::loop_isolation(false)]
    fn dup_frame_number(&self) -> (r: Option<Ebml<u64>>)
        ensures
            (match &r { Some(e) => seq![FieldModel::UInt { id: 0xCD, idx: e.index, key: e.id, v: *e.v }], None => Seq::empty() }) == (match &self.frame_number { Some(e) => seq![FieldModel::UInt { id: 0xCD, idx: e.index, key: e.id, v: *e.v }], None => Seq::empty() }),
    {
        match &self.frame_number {
            Some(e) => Some(crate::dup_ebml_copy(e)),
            None => None,
        }
    }

    /// A deep copy of the `block_addition_id` slot.
    #[verifier::loop_isolation(false)]
    fn dup_block_addition_id(&self) -> (r: Option<Ebml<u64>>)
        ensures
            (match &r { Some(e) => seq![FieldModel::UInt { id: 0xCB, idx: e.index, key: e.id, v: *e.v }], None => Seq::empty() }) == (match &self.block_addition_id { Some(e) => seq![FieldModel::UInt { id: 0xCB, idx: e.index, key: e.id, v: *e.v }], None => Seq::empty() }),
    {
        match &self.block_addition_id {
            Some(e) => Some(crate::dup_ebml_copy(e)),
            None => None,
        }
    }

    /// A deep copy of the `delay` slot.
    #[verifier::loop_isolation(false)]
    fn dup_delay(&self) -> (r: Option<Ebml<u64>>)
        ensures
            (match &r { Some(e) => seq![FieldModel::UInt { id: 0xCE, idx: e.index, key: e.id, v: *e.v }], None => Seq::empty() }) == (match &self.delay { Some(e) => seq![FieldModel::UInt { id: 0xCE, idx: e.index, key: e.id, v: *e.v }], None => Seq::empty() }),
    {
        match &self.delay {
            Some(e) => Some(crate::dup_ebml_copy(e)),
            None => None,
        }
    }

    /// A deep copy of the `slice_duration` slot.
    #[verifier::loop_isolation(false)]
    fn dup_slice_duration(&self) -> (r: Option<Ebml<u64>>)
        ensures
            (match &r { Some(e) => seq![FieldModel::UInt { id: 0xCF, idx: e.index, key: e.id, v: *e.v }], None => Seq::empty() }) == (match &self.slice_duration { Some(e) => seq![FieldModel::UInt { id: 0xCF, idx: e.index, key: e.id, v: *e.v }], None => Seq::empty() }),
    {
        match &self.slice_duration {
            Some(e) => Some(crate::dup_ebml_copy(e)),
            None => None,
        }
    }

    /// A deep copy with the same children, positions, and keys.
    #[verifier::rlimit(100)]
    #[verifier::spinoff_prover]
    pub fn duplicate(&self) -> (r: Self)
        ensures
            r.raw_model() == self.raw_model(),
            r.size == self.size,
    {
        let r = TimeSlice {
            size: self.size,
            lace_number: self.dup_lace_number(),
            frame_number: self.dup_frame_number(),
            block_addition_id: self.dup_block_addition_id(),
            delay: self.dup_delay(),
            slice_duration: self.dup_slice_duration(),
        };
        proof {
            reveal(TimeSlice::raw_model);
            assert(r.raw_model() == self.raw_model());
        }
        r
    }
}

impl TimeSlice {
    /// Serialise the whole element: body to a scratch buffer first, then
    /// the header with the now-known length, then the body.
    pub fn write_blocking(&self, w: &mut Vec<u8>) -> (r: Result<usize, MatroskaError>)
        ensures
            r is Ok <==> body_ok_rec(self.model()) && cat_bytes(self.model()).len() < 0xFFFFFFFFFFFFFF,
            r is Ok ==> final(w)@ == old(w)@ + node_frame_bytes(0xE8, cat_bytes(self.model()))
                && r->Ok_0 == node_frame_bytes(0xE8, cat_bytes(self.model())).len(),
            r is Err ==> final(w)@ == old(w)@ && r->Err_0 is InvalidVarIntMoreThanVintMax,
    {
        let mut buf: Vec<u8> = Vec::new();
        match self.write_body_blocking(&mut buf) {
            Ok(_) => {},
            Err(e) => {
                return Err(e);
            },
        }
        let start = w.len();
        match crate::io::write_element_id_size(w, 0xE8, buf.len() as u64) {
            Ok(_) => {},
            Err(e) => {
                return Err(e);
            },
        }
        w.append(&mut buf);
        Ok(w.len() - start)
    }

    /// Write this element's header with the given body size.
    pub fn write_header_blocking(&self, w: &mut Vec<u8>, size: u64) -> (r: Result<usize, MatroskaError>)
        ensures
            r is Ok <==> crate::io::size_encodable(size),
            r is Ok ==> final(w)@ == old(w)@ + crate::io::header_bytes(0xE8, size)
                && r->Ok_0 == crate::io::header_bytes(0xE8, size).len(),
            r is Err ==> final(w)@ == old(w)@ && r->Err_0 is InvalidVarIntMoreThanVintMax,
    {
        crate::io::write_element_id_size(w, 0xE8, size)
    }

    /// Write the body: every present child, in emission order.
    #[verifier::loop_isolation(false)]
    #[verifier::rlimit(60)]
    #[verifier::spinoff_prover]
    pub fn write_body_blocking(&self, w: &mut Vec<u8>) -> (r: Result<usize, MatroskaError>)
        ensures
            r is Ok <==> body_ok_rec(self.model()),
            r is Ok ==> final(w)@ == old(w)@ + cat_bytes(self.model())
                && r->Ok_0 == cat_bytes(self.model()).len(),
            r is Err ==> r->Err_0 is InvalidVarIntMoreThanVintMax,
    {
        let fields = self.elements();
        let start = w.len();
        let ghost ms = self.model();
        let mut i: usize = 0;
        while i < fields.len()
            invariant
                i <= fields@.len(),
                models_of::<TimeSliceFields>(fields@) == ms,
                w@ == old(w)@ + cat_bytes(ms.take(i as int)),
                body_ok_rec(ms.take(i as int)),
            decreases fields@.len() - i,
        {
            proof {
                assert(models_of::<TimeSliceFields>(fields@)[i as int] == ms[i as int]);
            }
            match fields[i].write_el(w) {
                Ok(_) => {},
                Err(e) => {
                    proof {
                        lemma_body_ok_forall(ms);
                    }
                    return Err(e);
                },
            }
            proof {
                assert(ms.take(i + 1) =~= ms.take(i as int).push(ms[i as int]));
                lemma_cat_snoc(ms.take(i as int), ms[i as int]);
            }
            i += 1;
        }
        proof {
            assert(ms.take(ms.len() as int) =~= ms);
            lemma_body_ok_forall(ms);
        }
        Ok(w.len() - start)
    }
}

/// One present child of a `TimeSlice`, paired with its value.
#[derive(Debug)]
pub enum TimeSliceFields {
    LaceNumber(Ebml<u64>),
    FrameNumber(Ebml<u64>),
    BlockAdditionId(Ebml<u64>),
    Delay(Ebml<u64>),
    SliceDuration(Ebml<u64>),
}

impl TimeSliceFields {
    /// The child's element ID and its two ordering slots.
    #[verifier::rlimit(60)]
    #[verifier::spinoff_prover]
    pub fn index(&self) -> (r: (EbmlId, Option<u64>, u64))
        ensures
            r.0.spec_u64() == self.model().eid(),
            r.1 == self.model().idx(),
            r.2 == self.model().key(),
    {
        match self {
            Self::LaceNumber(val) => (EbmlId::LaceNumber, val.index, val.id),
            Self::FrameNumber(val) => (EbmlId::FrameNumber, val.index, val.id),
            Self::BlockAdditionId(val) => (EbmlId::BlockAdditionId, val.index, val.id),
            Self::Delay(val) => (EbmlId::Delay, val.index, val.id),
            Self::SliceDuration(val) => (EbmlId::SliceDuration, val.index, val.id),
        }
    }

    /// Write this child's frame.
    #[verifier::rlimit(60)]
    #[verifier::spinoff_prover]
    pub fn write_el(&self, w: &mut Vec<u8>) -> (r: Result<usize, MatroskaError>)
        ensures
            r is Ok <==> el_ok(self.model()),
            r is Ok ==> final(w)@ == old(w)@ + el_bytes(self.model())
                && r->Ok_0 == el_bytes(self.model()).len(),
            r is Err ==> final(w)@ == old(w)@ && r->Err_0 is InvalidVarIntMoreThanVintMax,
    {
        match self {
            Self::LaceNumber(val) => crate::io::write_el_uint(w, 0xCC, &*val.v),
            Self::FrameNumber(val) => crate::io::write_el_uint(w, 0xCD, &*val.v),
            Self::BlockAdditionId(val) => crate::io::write_el_uint(w, 0xCB, &*val.v),
            Self::Delay(val) => crate::io::write_el_uint(w, 0xCE, &*val.v),
            Self::SliceDuration(val) => crate::io::write_el_uint(w, 0xCF, &*val.v),
        }
    }
}

impl EbmlField for TimeSliceFields {
    open spec fn model(&self) -> FieldModel {
        match self {
            Self::LaceNumber(e) => FieldModel::UInt { id: 0xCC, idx: e.index, key: e.id, v: *e.v },
            Self::FrameNumber(e) => FieldModel::UInt { id: 0xCD, idx: e.index, key: e.id, v: *e.v },
            Self::BlockAdditionId(e) => FieldModel::UInt { id: 0xCB, idx: e.index, key: e.id, v: *e.v },
            Self::Delay(e) => FieldModel::UInt { id: 0xCE, idx: e.index, key: e.id, v: *e.v },
            Self::SliceDuration(e) => FieldModel::UInt { id: 0xCF, idx: e.index, key: e.id, v: *e.v },
        }
    }

    fn sort_key(&self) -> (r: (Option<u64>, u64)) {
        match self {
            Self::LaceNumber(e) => (e.index, e.id),
            Self::FrameNumber(e) => (e.index, e.id),
            Self::BlockAdditionId(e) => (e.index, e.id),
            Self::Delay(e) => (e.index, e.id),
            Self::SliceDuration(e) => (e.index, e.id),
        }
    }
}

/// The `ReferenceFrame` structural element.
#[derive(Debug)]
pub struct ReferenceFrame {
    pub size: u64,
    pub reference_offset: Ebml<u64>,
    pub reference_timestamp: Ebml<u64>,
}

impl ReferenceFrame {
    /// The models of the children, in declaration order.
    #[verifier::opaque]
    pub open spec fn raw_model(self) -> Seq<FieldModel>
    {
        seq![FieldModel::UInt { id: 0xC9, idx: self.reference_offset.index, key: self.reference_offset.id, v: *self.reference_offset.v }]
            + seq![FieldModel::UInt { id: 0xCA, idx: self.reference_timestamp.index, key: self.reference_timestamp.id, v: *self.reference_timestamp.v }]
    }

    /// The children in emission order.
    #[verifier::opaque]
    pub open spec fn model(self) -> Seq<FieldModel>
    {
        sort_fields_spec(self.raw_model())
    }

    /// Append the `reference_offset` child values to a field run.
    #[verifier::loop_isolation(false)]
    fn push_reference_offset(&self, v: &mut Vec<ReferenceFrameFields>)
        ensures
            models_of::<ReferenceFrameFields>(final(v)@) == models_of::<ReferenceFrameFields>(old(v)@) + seq![FieldModel::UInt { id: 0xC9, idx: self.reference_offset.index, key: self.reference_offset.id, v: *self.reference_offset.v }],
    {
        let ghost prevv = v@;
        v.push(ReferenceFrameFields::ReferenceOffset(crate::dup_ebml_copy(&self.reference_offset)));
        proof {
            assert(models_of::<ReferenceFrameFields>(v@) =~= models_of::<ReferenceFrameFields>(prevv).push(v@.last().model()));
            assert(models_of::<ReferenceFrameFields>(prevv).push(v@.last().model()) =~= models_of::<ReferenceFrameFields>(prevv) + seq![FieldModel::UInt { id: 0xC9, idx: self.reference_offset.index, key: self.reference_offset.id, v: *self.reference_offset.v }]);
        }
    }

    /// Append the `reference_timestamp` child values to a field run.
    #[verifier::loop_isolation(false)]
    fn push_reference_timestamp(&self, v: &mut Vec<ReferenceFrameFields>)
        ensures
            models_of::<ReferenceFrameFields>(final(v)@) == models_of::<ReferenceFrameFields>(old(v)@) + seq![FieldModel::UInt { id: 0xCA, idx: self.reference_timestamp.index, key: self.reference_timestamp.id, v: *self.reference_timestamp.v }],
    {
        let ghost prevv = v@;
        v.push(ReferenceFrameFields::ReferenceTimestamp(crate::dup_ebml_copy(&self.reference_timestamp)));
        proof {
            assert(models_of::<ReferenceFrameFields>(v@) =~= models_of::<ReferenceFrameFields>(prevv).push(v@.last().model()));
            assert(models_of::<ReferenceFrameFields>(prevv).push(v@.last().model()) =~= models_of::<ReferenceFrameFields>(prevv) + seq![FieldModel::UInt { id: 0xCA, idx: self.reference_timestamp.index, key: self.reference_timestamp.id, v: *self.reference_timestamp.v }]);
        }
    }

    /// The present children, each paired with its ID, in emission order.
    #[verifier::rlimit(100)]
    #[verifier::spinoff_prover]
    pub fn elements(&self) -> (r: Vec<ReferenceFrameFields>)
        ensures
            models_of::<ReferenceFrameFields>(r@) == self.model(),
    {
        let mut v: Vec<ReferenceFrameFields> = Vec::new();
        proof {
            assert(models_of::<ReferenceFrameFields>(v@) =~= Seq::<FieldModel>::empty());
        }
        self.push_reference_offset(&mut v);
        self.push_reference_timestamp(&mut v);
        proof {
            reveal(ReferenceFrame::raw_model);
            reveal(ReferenceFrame::model);
            assert(Seq::<FieldModel>::empty() + seq![FieldModel::UInt { id: 0xC9, idx: self.reference_offset.index, key: self.reference_offset.id, v: *self.reference_offset.v }] =~= seq![FieldModel::UInt { id: 0xC9, idx: self.reference_offset.index, key: self.reference_offset.id, v: *self.reference_offset.v }]);
            assert(models_of::<ReferenceFrameFields>(v@) == self.raw_model());
        }
        sort_fields(v)
    }

    /// A deep copy of the `reference_offset` slot.
    #[verifier::loop_isolation(false)]
    fn dup_reference_offset(&self) -> (r: Ebml<u64>)
        ensures
            seq![FieldModel::UInt { id: 0xC9, idx: r.index, key: r.id, v: *r.v }] == seq![FieldModel::UInt { id: 0xC9, idx: self.reference_offset.index, key: self.reference_offset.id, v: *self.reference_offset.v }],
    {
        crate::dup_ebml_copy(&self.reference_offset)
    }

    /// A deep copy of the `reference_timestamp` slot.
    #[verifier::loop_isolation(false)]
    fn dup_reference_timestamp(&self) -> (r: Ebml<u64>)
        ensures
            seq![FieldModel::UInt { id: 0xCA, idx: r.index, key: r.id, v: *r.v }] == seq![FieldModel::UInt { id: 0xCA, idx: self.reference_timestamp.index, key: self.reference_timestamp.id, v: *self.reference_timestamp.v }],
    {
        crate::dup_ebml_copy(&self.reference_timestamp)
    }

    /// A deep copy with the same children, positions, and keys.
    #[verifier::rlimit(100)]
    #[verifier::spinoff_prover]
    pub fn duplicate(&self) -> (r: Self)
        ensures
            r.raw_model() == self.raw_model(),
            r.size == self.size,
    {
        let r = ReferenceFrame {
            size: self.size,
            reference_offset: self.dup_reference_offset(),
            reference_timestamp: self.dup_reference_timestamp(),
        };
        proof {
            reveal(ReferenceFrame::raw_model);
            assert(r.raw_model() == self.raw_model());
        }
        r
    }
}

impl ReferenceFrame {
    /// Serialise the whole element: body to a scratch buffer first, then
    /// the header with the now-known length, then the body.
    pub fn write_blocking(&self, w: &mut Vec<u8>) -> (r: Result<usize, MatroskaError>)
        ensures
            r is Ok <==> body_ok_rec(self.model()) && cat_bytes(self.model()).len() < 0xFFFFFFFFFFFFFF,
            r is Ok ==> final(w)@ == old(w)@ + node_frame_bytes(0xC8, cat_bytes(self.model()))
                && r->Ok_0 == node_frame_bytes(0xC8, cat_bytes(self.model())).len(),
            r is Err ==> final(w)@ == old(w)@ && r->Err_0 is InvalidVarIntMoreThanVintMax,
    {
        let mut buf: Vec<u8> = Vec::new();
        match self.write_body_blocking(&mut buf) {
            Ok(_) => {},
            Err(e) => {
                return Err(e);
            },
        }
        let start = w.len();
        match crate::io::write_element_id_size(w, 0xC8, buf.len() as u64) {
            Ok(_) => {},
            Err(e) => {
                return Err(e);
            },
        }
        w.append(&mut buf);
        Ok(w.len() - start)
    }

    /// Write this element's header with the given body size.
    pub fn write_header_blocking(&self, w: &mut Vec<u8>, size: u64) -> (r: Result<usize, MatroskaError>)
        ensures
            r is Ok <==> crate::io::size_encodable(size),
            r is Ok ==> final(w)@ == old(w)@ + crate::io::header_bytes(0xC8, size)
                && r->Ok_0 == crate::io::header_bytes(0xC8, size).len(),
            r is Err ==> final(w)@ == old(w)@ && r->Err_0 is InvalidVarIntMoreThanVintMax,
    {
        crate::io::write_element_id_size(w, 0xC8, size)
    }

    /// Write the body: every present child, in emission order.
    #[verifier::loop_isolation(false)]
    #[verifier::rlimit(60)]
    #[verifier::spinoff_prover]
    pub fn write_body_blocking(&self, w: &mut Vec<u8>) -> (r: Result<usize, MatroskaError>)
        ensures
            r is Ok <==> body_ok_rec(self.model()),
            r is Ok ==> final(w)@ == old(w)@ + cat_bytes(self.model())
                && r->Ok_0 == cat_bytes(self.model()).len(),
            r is Err ==> r->Err_0 is InvalidVarIntMoreThanVintMax,
    {
        let fields = self.elements();
        let start = w.len();
        let ghost ms = self.model();
        let mut i: usize = 0;
        while i < fields.len()
            invariant
                i <= fields@.len(),
                models_of::<ReferenceFrameFields>(fields@) == ms,
                w@ == old(w)@ + cat_bytes(ms.take(i as int)),
                body_ok_rec(ms.take(i as int)),
            decreases fields@.len() - i,
        {
            proof {
                assert(models_of::<ReferenceFrameFields>(fields@)[i as int] == ms[i as int]);
            }
            match fields[i].write_el(w) {
                Ok(_) => {},
                Err(e) => {
                    proof {
                        lemma_body_ok_forall(ms);
                    }
                    return Err(e);
                },
            }
            proof {
                assert(ms.take(i + 1) =~= ms.take(i as int).push(ms[i as int]));
                lemma_cat_snoc(ms.take(i as int), ms[i as int]);
            }
            i += 1;
        }
        proof {
            assert(ms.take(ms.len() as int) =~= ms);
            lemma_body_ok_forall(ms);
        }
        Ok(w.len() - start)
    }
}

/// One present child of a `ReferenceFrame`, paired with its value.
#[derive(Debug)]
pub enum ReferenceFrameFields {
    ReferenceOffset(Ebml<u64>),
    ReferenceTimestamp(Ebml<u64>),
}

impl ReferenceFrameFields {
    /// The child's element ID and its two ordering slots.
    #[verifier::rlimit(60)]
    #[verifier::spinoff_prover]
    pub fn index(&self) -> (r: (EbmlId, Option<u64>, u64))
        ensures
            r.0.spec_u64() == self.model().eid(),
            r.1 == self.model().idx(),
            r.2 == self.model().key(),
    {
        match self {
            Self::ReferenceOffset(val) => (EbmlId::ReferenceOffset, val.index, val.id),
            Self::ReferenceTimestamp(val) => (EbmlId::ReferenceTimestamp, val.index, val.id),
        }
    }

    /// Write this child's frame.
    #[verifier::rlimit(60)]
    #[verifier::spinoff_prover]
    pub fn write_el(&self, w: &mut Vec<u8>) -> (r: Result<usize, MatroskaError>)
        ensures
            r is Ok <==> el_ok(self.model()),
            r is Ok ==> final(w)@ == old(w)@ + el_bytes(self.model())
                && r->Ok_0 == el_bytes(self.model()).len(),
            r is Err ==> final(w)@ == old(w)@ && r->Err_0 is InvalidVarIntMoreThanVintMax,
    {
        match self {
            Self::ReferenceOffset(val) => crate::io::write_el_uint(w, 0xC9, &*val.v),
            Self::ReferenceTimestamp(val) => crate::io::write_el_uint(w, 0xCA, &*val.v),
        }
    }
}

impl EbmlField for ReferenceFrameFields {
    open spec fn model(&self) -> FieldModel {
        match self {
            Self::ReferenceOffset(e) => FieldModel::UInt { id: 0xC9, idx: e.index, key: e.id, v: *e.v },
            Self::ReferenceTimestamp(e) => FieldModel::UInt { id: 0xCA, idx: e.index, key: e.id, v: *e.v },
        }
    }

    fn sort_key(&self) -> (r: (Option<u64>, u64)) {
        match self {
            Self::ReferenceOffset(e) => (e.index, e.id),
            Self::ReferenceTimestamp(e) => (e.index, e.id),
        }
    }
}

/// The `Tracks` structural element.
#[derive(Debug)]
pub struct Tracks {
    pub size: u64,
    pub track_entry: Vec<Ebml<TrackEntry>>,
}

/// The models of the `track_entry` children of a `Tracks`.
pub open spec fn tracks_track_entry_models(s: Seq<Ebml<TrackEntry>>) -> Seq<FieldModel> {
    s.map_values(|e: Ebml<TrackEntry>| FieldModel::Node { id: 0xAE, idx: e.index, key: e.id, children: (*e.v).model() })
}

impl Tracks {
    /// The models of the children, in declaration order.
    #[verifier::opaque]
    pub open spec fn raw_model(self) -> Seq<FieldModel>
    {
        tracks_track_entry_models(self.track_entry@)
    }

    /// The children in emission order.
    #[verifier::opaque]
    pub open spec fn model(self) -> Seq<FieldModel>
    {
        sort_fields_spec(self.raw_model())
    }

    /// Append the `track_entry` child values to a field run.
    #[verifier::loop_isolation(false)]
    fn push_track_entry(&self, v: &mut Vec<TracksFields>)
        ensures
            models_of::<TracksFields>(final(v)@) == models_of::<TracksFields>(old(v)@) + tracks_track_entry_models(self.track_entry@),
    {
        let ghost base = models_of::<TracksFields>(v@);
        let mut i: usize = 0;
        while i < self.track_entry.len()
            invariant
                i <= self.track_entry@.len(),
                models_of::<TracksFields>(v@) == base + tracks_track_entry_models(self.track_entry@.take(i as int)),
            decreases self.track_entry@.len() - i,
        {
            let e = &self.track_entry[i];
            let d = (&*e.v).duplicate();
            proof {
                reveal(TrackEntry::model);
                assert(d.model() == (*e.v).model());
            }
            let ghost prevv = v@;
            v.push(TracksFields::TrackEntry(Ebml { index: e.index, v: Box::new(d), id: e.id }));
            proof {
                assert(self.track_entry@.take(i + 1) =~= self.track_entry@.take(i as int).push(self.track_entry@[i as int]));
                assert(models_of::<TracksFields>(v@) =~= models_of::<TracksFields>(prevv).push(v@.last().model()));
                assert(tracks_track_entry_models(self.track_entry@.take(i + 1)) =~= tracks_track_entry_models(self.track_entry@.take(i as int)).push(v@.last().model()));
                assert(base + tracks_track_entry_models(self.track_entry@.take(i + 1)) =~= (base + tracks_track_entry_models(self.track_entry@.take(i as int))).push(v@.last().model()));
            }
            i += 1;
        }
        proof {
            assert(self.track_entry@.take(self.track_entry@.len() as int) =~= self.track_entry@);
        }
    }

    /// The present children, each paired with its ID, in emission order.
    #[verifier::rlimit(100)]
    #[verifier::spinoff_prover]
    pub fn elements(&self) -> (r: Vec<TracksFields>)
        ensures
            models_of::<TracksFields>(r@) == self.model(),
    {
        let mut v: Vec<TracksFields> = Vec::new();
        proof {
            assert(models_of::<TracksFields>(v@) =~= Seq::<FieldModel>::empty());
        }
        self.push_track_entry(&mut v);
        proof {
            reveal(Tracks::raw_model);
            reveal(Tracks::model);
            assert(Seq::<FieldModel>::empty() + tracks_track_entry_models(self.track_entry@) =~= tracks_track_entry_models(self.track_entry@));
            assert(models_of::<TracksFields>(v@) == self.raw_model());
        }
        sort_fields(v)
    }

    /// A deep copy of the `track_entry` slot.
    #[verifier::loop_isolation(false)]
    fn dup_track_entry(&self) -> (r: Vec<Ebml<TrackEntry>>)
        ensures
            tracks_track_entry_models(r@) == tracks_track_entry_models(self.track_entry@),
    {
        let mut out: Vec<Ebml<TrackEntry>> = Vec::new();
        let mut i: usize = 0;
        while i < self.track_entry.len()
            invariant
                i <= self.track_entry@.len(),
                tracks_track_entry_models(out@) == tracks_track_entry_models(self.track_entry@.take(i as int)),
            decreases self.track_entry@.len() - i,
        {
            let e = &self.track_entry[i];
            let d = (&*e.v).duplicate();
            proof {
                reveal(TrackEntry::model);
                assert(d.model() == (*e.v).model());
            }
            let ghost prevo = out@;
            out.push(Ebml { index: e.index, v: Box::new(d), id: e.id });
            proof {
                assert(self.track_entry@.take(i + 1) =~= self.track_entry@.take(i as int).push(self.track_entry@[i as int]));
                assert(out@.drop_last() =~= prevo);
                assert(self.track_entry@.take(i + 1).drop_last() =~= self.track_entry@.take(i as int));
                assert(FieldModel::Node { id: 0xAE, idx: (out@.last()).index, key: (out@.last()).id, children: (*(out@.last()).v).model() } == FieldModel::Node { id: 0xAE, idx: (self.track_entry@[i as int]).index, key: (self.track_entry@[i as int]).id, children: (*(self.track_entry@[i as int]).v).model() });
                assert(tracks_track_entry_models(out@) =~= tracks_track_entry_models(prevo).push(FieldModel::Node { id: 0xAE, idx: (out@.last()).index, key: (out@.last()).id, children: (*(out@.last()).v).model() }));
                assert(tracks_track_entry_models(self.track_entry@.take(i + 1)) =~= tracks_track_entry_models(self.track_entry@.take(i as int)).push(FieldModel::Node { id: 0xAE, idx: (self.track_entry@[i as int]).index, key: (self.track_entry@[i as int]).id, children: (*(self.track_entry@[i as int]).v).model() }));
            }
            i += 1;
        }
        proof {
            assert(self.track_entry@.take(self.track_entry@.len() as int) =~= self.track_entry@);
        }
        out
    }

    /// A deep copy with the same children, positions, and keys.
    #[verifier::rlimit(100)]
    #[verifier::spinoff_prover]
    pub fn duplicate(&self) -> (r: Self)
        ensures
            r.raw_model() == self.raw_model(),
            r.size == self.size,
    {
        let r = Tracks {
            size: self.size,
            track_entry: self.dup_track_entry(),
        };
        proof {
            reveal(Tracks::raw_model);
            assert(r.raw_model() == self.raw_model());
        }
        r
    }
}

impl Tracks {
    /// Serialise the whole element: body to a scratch buffer first, then
    /// the header with the now-known length, then the body.
    pub fn write_blocking(&self, w: &mut Vec<u8>) -> (r: Result<usize, MatroskaError>)
        ensures
            r is Ok <==> body_ok_rec(self.model()) && cat_bytes(self.model()).len() < 0xFFFFFFFFFFFFFF,
            r is Ok ==> final(w)@ == old(w)@ + node_frame_bytes(0x1654AE6B, cat_bytes(self.model()))
                && r->Ok_0 == node_frame_bytes(0x1654AE6B, cat_bytes(self.model())).len(),
            r is Err ==> final(w)@ == old(w)@ && r->Err_0 is InvalidVarIntMoreThanVintMax,
    {
        let mut buf: Vec<u8> = Vec::new();
        match self.write_body_blocking(&mut buf) {
            Ok(_) => {},
            Err(e) => {
                return Err(e);
            },
        }
        let start = w.len();
        match crate::io::write_element_id_size(w, 0x1654AE6B, buf.len() as u64) {
            Ok(_) => {},
            Err(e) => {
                return Err(e);
            },
        }
        w.append(&mut buf);
        Ok(w.len() - start)
    }

    /// Write this element's header with the given body size.
    pub fn write_header_blocking(&self, w: &mut Vec<u8>, size: u64) -> (r: Result<usize, MatroskaError>)
        ensures
            r is Ok <==> crate::io::size_encodable(size),
            r is Ok ==> final(w)@ == old(w)@ + crate::io::header_bytes(0x1654AE6B, size)
                && r->Ok_0 == crate::io::header_bytes(0x1654AE6B, size).len(),
            r is Err ==> final(w)@ == old(w)@ && r->Err_0 is InvalidVarIntMoreThanVintMax,
    {
        crate::io::write_element_id_size(w, 0x1654AE6B, size)
    }

    /// Write the body: every present child, in emission order.
    #[verifier::loop_isolation(false)]
    #[verifier::rlimit(60)]
    #[verifier::spinoff_prover]
    pub fn write_body_blocking(&self, w: &mut Vec<u8>) -> (r: Result<usize, MatroskaError>)
        ensures
            r is Ok <==> body_ok_rec(self.model()),
            r is Ok ==> final(w)@ == old(w)@ + cat_bytes(self.model())
                && r->Ok_0 == cat_bytes(self.model()).len(),
            r is Err ==> r->Err_0 is InvalidVarIntMoreThanVintMax,
    {
        let fields = self.elements();
        let start = w.len();
        let ghost ms = self.model();
        let mut i: usize = 0;
        while i < fields.len()
            invariant
                i <= fields@.len(),
                models_of::<TracksFields>(fields@) == ms,
                w@ == old(w)@ + cat_bytes(ms.take(i as int)),
                body_ok_rec(ms.take(i as int)),
            decreases fields@.len() - i,
        {
            proof {
                assert(models_of::<TracksFields>(fields@)[i as int] == ms[i as int]);
            }
            match fields[i].write_el(w) {
                Ok(_) => {},
                Err(e) => {
                    proof {
                        lemma_body_ok_forall(ms);
                    }
                    return Err(e);
                },
            }
            proof {
                assert(ms.take(i + 1) =~= ms.take(i as int).push(ms[i as int]));
                lemma_cat_snoc(ms.take(i as int), ms[i as int]);
            }
            i += 1;
        }
        proof {
            assert(ms.take(ms.len() as int) =~= ms);
            lemma_body_ok_forall(ms);
        }
        Ok(w.len() - start)
    }
}

/// One present child of a `Tracks`, paired with its value.
#[derive(Debug)]
pub enum TracksFields {
    TrackEntry(Ebml<TrackEntry>),
}

impl TracksFields {
    /// The child's element ID and its two ordering slots.
    #[verifier::rlimit(60)]
    #[verifier::spinoff_prover]
    pub fn index(&self) -> (r: (EbmlId, Option<u64>, u64))
        ensures
            r.0.spec_u64() == self.model().eid(),
            r.1 == self.model().idx(),
            r.2 == self.model().key(),
    {
        match self {
            Self::TrackEntry(val) => (EbmlId::TrackEntry, val.index, val.id),
        }
    }

    /// Write this child's frame.
    #[verifier::rlimit(60)]
    #[verifier::spinoff_prover]
    pub fn write_el(&self, w: &mut Vec<u8>) -> (r: Result<usize, MatroskaError>)
        ensures
            r is Ok <==> el_ok(self.model()),
            r is Ok ==> final(w)@ == old(w)@ + el_bytes(self.model())
                && r->Ok_0 == el_bytes(self.model()).len(),
            r is Err ==> final(w)@ == old(w)@ && r->Err_0 is InvalidVarIntMoreThanVintMax,
    {
        match self {
            Self::TrackEntry(val) => (*val.v).write_blocking(w),
        }
    }
}

impl EbmlField for TracksFields {
    open spec fn model(&self) -> FieldModel {
        match self {
            Self::TrackEntry(e) => FieldModel::Node { id: 0xAE, idx: e.index, key: e.id, children: (*e.v).model() },
        }
    }

    fn sort_key(&self) -> (r: (Option<u64>, u64)) {
        match self {
            Self::TrackEntry(e) => (e.index, e.id),
        }
    }
}

/// The `TrackEntry` structural element.
#[derive(Debug)]
pub struct TrackEntry {
    pub size: u64,
    pub track_number: Ebml<u64>,
    pub track_uid: Ebml<u64>,
    pub track_type: Ebml<u64>,
    pub flag_enabled: Ebml<u64>,
    pub flag_default: Ebml<u64>,
    pub flag_forced: Ebml<u64>,
    pub flag_hearing_impaired: Option<Ebml<u64>>,
    pub flag_visual_impaired: Option<Ebml<u64>>,
    pub flag_text_descriptions: Option<Ebml<u64>>,
    pub flag_original: Option<Ebml<u64>>,
    pub flag_commentary: Option<Ebml<u64>>,
    pub flag_lacing: Ebml<u64>,
    pub min_cache: Ebml<u64>,
    pub max_cache: Option<Ebml<u64>>,
    pub default_duration: Option<Ebml<u64>>,
    pub default_decoded_field_duration: Option<Ebml<u64>>,
    /// A float on the wire, held as its IEEE-754 f64 bit pattern; convert
    /// with `f64::to_bits` and `f64::from_bits`.
    pub track_timestamp_scale: Ebml<u64>,
    pub track_offset: Option<Ebml<i64>>,
    pub max_block_addition_id: Ebml<u64>,
    pub block_addition_mapping: Vec<Ebml<BlockAdditionMapping>>,
    pub name: Option<Ebml<String>>,
    pub language: Ebml<String>,
    pub language_bcp_47: Option<Ebml<String>>,
    pub codec_id: Ebml<String>,
    pub codec_private: Option<Ebml<Vec<u8>>>,
    pub codec_name: Option<Ebml<String>>,
    pub attachment_link: Option<Ebml<u64>>,
    pub codec_settings: Option<Ebml<String>>,
    pub codec_info_url: Vec<Ebml<String>>,
    pub codec_download_url: Vec<Ebml<String>>,
    pub codec_decode_all: Ebml<u64>,
    pub track_overlay: Vec<Ebml<u64>>,
    pub codec_delay: Ebml<u64>,
    pub seek_pre_roll: Ebml<u64>,
    pub track_translate: Vec<Ebml<TrackTranslate>>,
    pub video: Option<Ebml<Video>>,
    pub audio: Option<Ebml<Audio>>,
    pub track_operation: Option<Ebml<TrackOperation>>,
    pub trick_track_uid: Option<Ebml<u64>>,
    pub trick_track_segment_uid: Option<Ebml<Vec<u8>>>,
    pub trick_track_flag: Option<Ebml<u64>>,
    pub trick_struct_track_uid: Option<Ebml<u64>>,
    pub trick_struct_track_segment_uid: Option<Ebml<Vec<u8>>>,
    pub content_encodings: Option<Ebml<ContentEncodings>>,
}

/// The models of the `block_addition_mapping` children of a `TrackEntry`.
pub open spec fn trackentry_block_addition_mapping_models(s: Seq<Ebml<BlockAdditionMapping>>) -> Seq<FieldModel> {
    s.map_values(|e: Ebml<BlockAdditionMapping>| FieldModel::Node { id: 0x41E4, idx: e.index, key: e.id, children: (*e.v).model() })
}

/// The models of the `codec_info_url` children of a `TrackEntry`.
pub open spec fn trackentry_codec_info_url_models(s: Seq<Ebml<String>>) -> Seq<FieldModel> {
    s.map_values(|e: Ebml<String>| FieldModel::Text { id: 0x3B4040, idx: e.index, key: e.id, s: (*e.v)@ })
}

/// The models of the `codec_download_url` children of a `TrackEntry`.
pub open spec fn trackentry_codec_download_url_models(s: Seq<Ebml<String>>) -> Seq<FieldModel> {
    s.map_values(|e: Ebml<String>| FieldModel::Text { id: 0x26B240, idx: e.index, key: e.id, s: (*e.v)@ })
}

/// The models of the `track_overlay` children of a `TrackEntry`.
pub open spec fn trackentry_track_overlay_models(s: Seq<Ebml<u64>>) -> Seq<FieldModel> {
    s.map_values(|e: Ebml<u64>| FieldModel::UInt { id: 0x6FAB, idx: e.index, key: e.id, v: *e.v })
}

/// The models of the `track_translate` children of a `TrackEntry`.
pub open spec fn trackentry_track_translate_models(s: Seq<Ebml<TrackTranslate>>) -> Seq<FieldModel> {
    s.map_values(|e: Ebml<TrackTranslate>| FieldModel::Node { id: 0x6624, idx: e.index, key: e.id, children: (*e.v).model() })
}

impl TrackEntry {
    /// One run of the `TrackEntry` child models, in declaration order.
    #[verifier::opaque]
    pub open spec fn raw_chunk0(self) -> Seq<FieldModel> {
        seq![FieldModel::UInt { id: 0xD7, idx: self.track_number.index, key: self.track_number.id, v: *self.track_number.v }]
            + seq![FieldModel::UInt { id: 0x73C5, idx: self.track_uid.index, key: self.track_uid.id, v: *self.track_uid.v }]
            + seq![FieldModel::UInt { id: 0x83, idx: self.track_type.index, key: self.track_type.id, v: *self.track_type.v }]
            + seq![FieldModel::UInt { id: 0xB9, idx: self.flag_enabled.index, key: self.flag_enabled.id, v: *self.flag_enabled.v }]
            + seq![FieldModel::UInt { id: 0x88, idx: self.flag_default.index, key: self.flag_default.id, v: *self.flag_default.v }]
            + seq![FieldModel::UInt { id: 0x55AA, idx: self.flag_forced.index, key: self.flag_forced.id, v: *self.flag_forced.v }]
            + (match &self.flag_hearing_impaired { Some(e) => seq![FieldModel::UInt { id: 0x55AB, idx: e.index, key: e.id, v: *e.v }], None => Seq::empty() })
            + (match &self.flag_visual_impaired { Some(e) => seq![FieldModel::UInt { id: 0x55AC, idx: e.index, key: e.id, v: *e.v }], None => Seq::empty() })
    }

    /// One run of the `TrackEntry` child models, in declaration order.
    #[verifier::opaque]
    pub open spec fn raw_chunk1(self) -> Seq<FieldModel> {
        (match &self.flag_text_descriptions { Some(e) => seq![FieldModel::UInt { id: 0x55AD, idx: e.index, key: e.id, v: *e.v }], None => Seq::empty() })
            + (match &self.flag_original { Some(e) => seq![FieldModel::UInt { id: 0x55AE, idx: e.index, key: e.id, v: *e.v }], None => Seq::empty() })
            + (match &self.flag_commentary { Some(e) => seq![FieldModel::UInt { id: 0x55AF, idx: e.index, key: e.id, v: *e.v }], None => Seq::empty() })
            + seq![FieldModel::UInt { id: 0x9C, idx: self.flag_lacing.index, key: self.flag_lacing.id, v: *self.flag_lacing.v }]
            + seq![FieldModel::UInt { id: 0x6DE7, idx: self.min_cache.index, key: self.min_cache.id, v: *self.min_cache.v }]
            + (match &self.max_cache { Some(e) => seq![FieldModel::UInt { id: 0x6DF8, idx: e.index, key: e.id, v: *e.v }], None => Seq::empty() })
            + (match &self.default_duration { Some(e) => seq![FieldModel::UInt { id: 0x23E383, idx: e.index, key: e.id, v: *e.v }], None => Seq::empty() })
            + (match &self.default_decoded_field_duration { Some(e) => seq![FieldModel::UInt { id: 0x234E7A, idx: e.index, key: e.id, v: *e.v }], None => Seq::empty() })
    }

    /// One run of the `TrackEntry` child models, in declaration order.
    #[verifier::opaque]
    pub open spec fn raw_chunk2(self) -> Seq<FieldModel> {
        seq![FieldModel::Flt64 { id: 0x23314F, idx: self.track_timestamp_scale.index, key: self.track_timestamp_scale.id, bits: *self.track_timestamp_scale.v }]
            + (match &self.track_offset { Some(e) => seq![FieldModel::SInt { id: 0x537F, idx: e.index, key: e.id, v: *e.v }], None => Seq::empty() })
            + seq![FieldModel::UInt { id: 0x55EE, idx: self.max_block_addition_id.index, key: self.max_block_addition_id.id, v: *self.max_block_addition_id.v }]
            + trackentry_block_addition_mapping_models(self.block_addition_mapping@)
            + (match &self.name { Some(e) => seq![FieldModel::Text { id: 0x536E, idx: e.index, key: e.id, s: (*e.v)@ }], None => Seq::empty() })
            + seq![FieldModel::Text { id: 0x22B59C, idx: self.language.index, key: self.language.id, s: (*self.language.v)@ }]
            + (match &self.language_bcp_47 { Some(e) => seq![FieldModel::Text { id: 0x22B59D, idx: e.index, key: e.id, s: (*e.v)@ }], None => Seq::empty() })
            + seq![FieldModel::Text { id: 0x86, idx: self.codec_id.index, key: self.codec_id.id, s: (*self.codec_id.v)@ }]
    }

    /// One run of the `TrackEntry` child models, in declaration order.
    #[verifier::opaque]
    pub open spec fn raw_chunk3(self) -> Seq<FieldModel> {
        (match &self.codec_private { Some(e) => seq![FieldModel::Bin { id: 0x63A2, idx: e.index, key: e.id, b: (*e.v)@ }], None => Seq::empty() })
            + (match &self.codec_name { Some(e) => seq![FieldModel::Text { id: 0x258688, idx: e.index, key: e.id, s: (*e.v)@ }], None => Seq::empty() })
            + (match &self.attachment_link { Some(e) => seq![FieldModel::UInt { id: 0x7446, idx: e.index, key: e.id, v: *e.v }], None => Seq::empty() })
            + (match &self.codec_settings { Some(e) => seq![FieldModel::Text { id: 0x3A9697, idx: e.index, key: e.id, s: (*e.v)@ }], None => Seq::empty() })
            + trackentry_codec_info_url_models(self.codec_info_url@)
            + trackentry_codec_download_url_models(self.codec_download_url@)
            + seq![FieldModel::UInt { id: 0xAA, idx: self.codec_decode_all.index, key: self.codec_decode_all.id, v: *self.codec_decode_all.v }]
            + trackentry_track_overlay_models(self.track_overlay@)
    }

    /// One run of the `TrackEntry` child models, in declaration order.
    #[verifier::opaque]
    pub open spec fn raw_chunk4(self) -> Seq<FieldModel> {
        seq![FieldModel::UInt { id: 0x56AA, idx: self.codec_delay.index, key: self.codec_delay.id, v: *self.codec_delay.v }]
            + seq![FieldModel::UInt { id: 0x56BB, idx: self.seek_pre_roll.index, key: self.seek_pre_roll.id, v: *self.seek_pre_roll.v }]
            + trackentry_track_translate_models(self.track_translate@)
            + (match &self.video { Some(e) => seq![FieldModel::Node { id: 0xE0, idx: e.index, key: e.id, children: (*e.v).model() }], None => Seq::empty() })
            + (match &self.audio { Some(e) => seq![FieldModel::Node { id: 0xE1, idx: e.index, key: e.id, children: (*e.v).model() }], None => Seq::empty() })
            + (match &self.track_operation { Some(e) => seq![FieldModel::Node { id: 0xE2, idx: e.index, key: e.id, children: (*e.v).model() }], None => Seq::empty() })
            + (match &self.trick_track_uid { Some(e) => seq![FieldModel::UInt { id: 0xC0, idx: e.index, key: e.id, v: *e.v }], None => Seq::empty() })
            + (match &self.trick_track_segment_uid { Some(e) => seq![FieldModel::Bin { id: 0xC1, idx: e.index, key: e.id, b: (*e.v)@ }], None => Seq::empty() })
    }

    /// One run of the `TrackEntry` child models, in declaration order.
    #[verifier::opaque]
    pub open spec fn raw_chunk5(self) -> Seq<FieldModel> {
        (match &self.trick_track_flag { Some(e) => seq![FieldModel::UInt { id: 0xC6, idx: e.index, key: e.id, v: *e.v }], None => Seq::empty() })
            + (match &self.trick_struct_track_uid { Some(e) => seq![FieldModel::UInt { id: 0xC7, idx: e.index, key: e.id, v: *e.v }], None => Seq::empty() })
            + (match &self.trick_struct_track_segment_uid { Some(e) => seq![FieldModel::Bin { id: 0xC4, idx: e.index, key: e.id, b: (*e.v)@ }], None => Seq::empty() })
            + (match &self.content_encodings { Some(e) => seq![FieldModel::Node { id: 0x6D80, idx: e.index, key: e.id, children: (*e.v).model() }], None => Seq::empty() })
    }

    /// The models of the children, in declaration order.
    #[verifier::opaque]
    pub open spec fn raw_model(self) -> Seq<FieldModel>
    {
        self.raw_chunk0()
            + self.raw_chunk1()
            + self.raw_chunk2()
            + self.raw_chunk3()
            + self.raw_chunk4()
            + self.raw_chunk5()
    }

    /// The children in emission order.
    #[verifier::opaque]
    pub open spec fn model(self) -> Seq<FieldModel>
    {
        sort_fields_spec(self.raw_model())
    }

    /// Append the `track_number` child values to a field run.
    #[verifier::loop_isolation(false)]
    fn push_track_number(&self, v: &mut Vec<TrackEntryFields>)
        ensures
            models_of::<TrackEntryFields>(final(v)@) == models_of::<TrackEntryFields>(old(v)@) + seq![FieldModel::UInt { id: 0xD7, idx: self.track_number.index, key: self.track_number.id, v: *self.track_number.v }],
    {
        let ghost prevv = v@;
        v.push(TrackEntryFields::TrackNumber(crate::dup_ebml_copy(&self.track_number)));
        proof {
            assert(models_of::<TrackEntryFields>(v@) =~= models_of::<TrackEntryFields>(prevv).push(v@.last().model()));
            assert(models_of::<TrackEntryFields>(prevv).push(v@.last().model()) =~= models_of::<TrackEntryFields>(prevv) + seq![FieldModel::UInt { id: 0xD7, idx: self.track_number.index, key: self.track_number.id, v: *self.track_number.v }]);
        }
    }

    /// Append the `track_uid` child values to a field run.
    #[verifier::loop_isolation(false)]
    fn push_track_uid(&self, v: &mut Vec<TrackEntryFields>)
        ensures
            models_of::<TrackEntryFields>(final(v)@) == models_of::<TrackEntryFields>(old(v)@) + seq![FieldModel::UInt { id: 0x73C5, idx: self.track_uid.index, key: self.track_uid.id, v: *self.track_uid.v }],
    {
        let ghost prevv = v@;
        v.push(TrackEntryFields::TrackUid(crate::dup_ebml_copy(&self.track_uid)));
        proof {
            assert(models_of::<TrackEntryFields>(v@) =~= models_of::<TrackEntryFields>(prevv).push(v@.last().model()));
            assert(models_of::<TrackEntryFields>(prevv).push(v@.last().model()) =~= models_of::<TrackEntryFields>(prevv) + seq![FieldModel::UInt { id: 0x73C5, idx: self.track_uid.index, key: self.track_uid.id, v: *self.track_uid.v }]);
        }
    }

    /// Append the `track_type` child values to a field run.
    #[verifier::loop_isolation(false)]
    fn push_track_type(&self, v: &mut Vec<TrackEntryFields>)
        ensures
            models_of::<TrackEntryFields>(final(v)@) == models_of::<TrackEntryFields>(old(v)@) + seq![FieldModel::UInt { id: 0x83, idx: self.track_type.index, key: self.track_type.id, v: *self.track_type.v }],
    {
        let ghost prevv = v@;
        v.push(TrackEntryFields::TrackType(crate::dup_ebml_copy(&self.track_type)));
        proof {
            assert(models_of::<TrackEntryFields>(v@) =~= models_of::<TrackEntryFields>(prevv).push(v@.last().model()));
            assert(models_of::<TrackEntryFields>(prevv).push(v@.last().model()) =~= models_of::<TrackEntryFields>(prevv) + seq![FieldModel::UInt { id: 0x83, idx: self.track_type.index, key: self.track_type.id, v: *self.track_type.v }]);
        }
    }

    /// Append the `flag_enabled` child values to a field run.
    #[verifier::loop_isolation(false)]
    fn push_flag_enabled(&self, v: &mut Vec<TrackEntryFields>)
        ensures
            models_of::<TrackEntryFields>(final(v)@) == models_of::<TrackEntryFields>(old(v)@) + seq![FieldModel::UInt { id: 0xB9, idx: self.flag_enabled.index, key: self.flag_enabled.id, v: *self.flag_enabled.v }],
    {
        let ghost prevv = v@;
        v.push(TrackEntryFields::FlagEnabled(crate::dup_ebml_copy(&self.flag_enabled)));
        proof {
            assert(models_of::<TrackEntryFields>(v@) =~= models_of::<TrackEntryFields>(prevv).push(v@.last().model()));
            assert(models_of::<TrackEntryFields>(prevv).push(v@.last().model()) =~= models_of::<TrackEntryFields>(prevv) + seq![FieldModel::UInt { id: 0xB9, idx: self.flag_enabled.index, key: self.flag_enabled.id, v: *self.flag_enabled.v }]);
        }
    }

    /// Append the `flag_default` child values to a field run.
    #[verifier::loop_isolation(false)]
    fn push_flag_default(&self, v: &mut Vec<TrackEntryFields>)
        ensures
            models_of::<TrackEntryFields>(final(v)@) == models_of::<TrackEntryFields>(old(v)@) + seq![FieldModel::UInt { id: 0x88, idx: self.flag_default.index, key: self.flag_default.id, v: *self.flag_default.v }],
    {
        let ghost prevv = v@;
        v.push(TrackEntryFields::FlagDefault(crate::dup_ebml_copy(&self.flag_default)));
        proof {
            assert(models_of::<TrackEntryFields>(v@) =~= models_of::<TrackEntryFields>(prevv).push(v@.last().model()));
            assert(models_of::<TrackEntryFields>(prevv).push(v@.last().model()) =~= models_of::<TrackEntryFields>(prevv) + seq![FieldModel::UInt { id: 0x88, idx: self.flag_default.index, key: self.flag_default.id, v: *self.flag_default.v }]);
        }
    }

    /// Append the `flag_forced` child values to a field run.
    #[verifier::loop_isolation(false)]
    fn push_flag_forced(&self, v: &mut Vec<TrackEntryFields>)
        ensures
            models_of::<TrackEntryFields>(final(v)@) == models_of::<TrackEntryFields>(old(v)@) + seq![FieldModel::UInt { id: 0x55AA, idx: self.flag_forced.index, key: self.flag_forced.id, v: *self.flag_forced.v }],
    {
        let ghost prevv = v@;
        v.push(TrackEntryFields::FlagForced(crate::dup_ebml_copy(&self.flag_forced)));
        proof {
            assert(models_of::<TrackEntryFields>(v@) =~= models_of::<TrackEntryFields>(prevv).push(v@.last().model()));
            assert(models_of::<TrackEntryFields>(prevv).push(v@.last().model()) =~= models_of::<TrackEntryFields>(prevv) + seq![FieldModel::UInt { id: 0x55AA, idx: self.flag_forced.index, key: self.flag_forced.id, v: *self.flag_forced.v }]);
        }
    }

    /// Append the `flag_hearing_impaired` child values to a field run.
    #[verifier::loop_isolation(false)]
    fn push_flag_hearing_impaired(&self, v: &mut Vec<TrackEntryFields>)
        ensures
            models_of::<TrackEntryFields>(final(v)@) == models_of::<TrackEntryFields>(old(v)@) + (match &self.flag_hearing_impaired { Some(e) => seq![FieldModel::UInt { id: 0x55AB, idx: e.index, key: e.id, v: *e.v }], None => Seq::empty() }),
    {
        match &self.flag_hearing_impaired {
            Some(e) => {
                let ghost prevv = v@;
                v.push(TrackEntryFields::FlagHearingImpaired(crate::dup_ebml_copy(e)));
                proof {
                    assert(models_of::<TrackEntryFields>(v@) =~= models_of::<TrackEntryFields>(prevv).push(v@.last().model()));
                    assert(models_of::<TrackEntryFields>(prevv).push(v@.last().model()) =~= models_of::<TrackEntryFields>(prevv) + (match &self.flag_hearing_impaired { Some(e) => seq![FieldModel::UInt { id: 0x55AB, idx: e.index, key: e.id, v: *e.v }], None => Seq::empty() }));
                }
            },
            None => {
                proof {
                    assert(models_of::<TrackEntryFields>(v@) =~= models_of::<TrackEntryFields>(v@) + (match &self.flag_hearing_impaired { Some(e) => seq![FieldModel::UInt { id: 0x55AB, idx: e.index, key: e.id, v: *e.v }], None => Seq::empty() }));
                }
            },
        }
    }

    /// Append the `flag_visual_impaired` child values to a field run.
    #[verifier::loop_isolation(false)]
    fn push_flag_visual_impaired(&self, v: &mut Vec<TrackEntryFields>)
        ensures
            models_of::<TrackEntryFields>(final(v)@) == models_of::<TrackEntryFields>(old(v)@) + (match &self.flag_visual_impaired { Some(e) => seq![FieldModel::UInt { id: 0x55AC, idx: e.index, key: e.id, v: *e.v }], None => Seq::empty() }),
    {
        match &self.flag_visual_impaired {
            Some(e) => {
                let ghost prevv = v@;
                v.push(TrackEntryFields::FlagVisualImpaired(crate::dup_ebml_copy(e)));
                proof {
                    assert(models_of::<TrackEntryFields>(v@) =~= models_of::<TrackEntryFields>(prevv).push(v@.last().model()));
                    assert(models_of::<TrackEntryFields>(prevv).push(v@.last().model()) =~= models_of::<TrackEntryFields>(prevv) + (match &self.flag_visual_impaired { Some(e) => seq![FieldModel::UInt { id: 0x55AC, idx: e.index, key: e.id, v: *e.v }], None => Seq::empty() }));
                }
            },
            None => {
                proof {
                    assert(models_of::<TrackEntryFields>(v@) =~= models_of::<TrackEntryFields>(v@) + (match &self.flag_visual_impaired { Some(e) => seq![FieldModel::UInt { id: 0x55AC, idx: e.index, key: e.id, v: *e.v }], None => Seq::empty() }));
                }
            },
        }
    }

    /// Append the `flag_text_descriptions` child values to a field run.
    #[verifier::loop_isolation(false)]
    fn push_flag_text_descriptions(&self, v: &mut Vec<TrackEntryFields>)
        ensures
            models_of::<TrackEntryFields>(final(v)@) == models_of::<TrackEntryFields>(old(v)@) + (match &self.flag_text_descriptions { Some(e) => seq![FieldModel::UInt { id: 0x55AD, idx: e.index, key: e.id, v: *e.v }], None => Seq::empty() }),
    {
        match &self.flag_text_descriptions {
            Some(e) => {
                let ghost prevv = v@;
                v.push(TrackEntryFields::FlagTextDescriptions(crate::dup_ebml_copy(e)));
                proof {
                    assert(models_of::<TrackEntryFields>(v@) =~= models_of::<TrackEntryFields>(prevv).push(v@.last().model()));
                    assert(models_of::<TrackEntryFields>(prevv).push(v@.last().model()) =~= models_of::<TrackEntryFields>(prevv) + (match &self.flag_text_descriptions { Some(e) => seq![FieldModel::UInt { id: 0x55AD, idx: e.index, key: e.id, v: *e.v }], None => Seq::empty() }));
                }
            },
            None => {
                proof {
                    assert(models_of::<TrackEntryFields>(v@) =~= models_of::<TrackEntryFields>(v@) + (match &self.flag_text_descriptions { Some(e) => seq![FieldModel::UInt { id: 0x55AD, idx: e.index, key: e.id, v: *e.v }], None => Seq::empty() }));
                }
            },
        }
    }

    /// Append the `flag_original` child values to a field run.
    #[verifier::loop_isolation(false)]
    fn push_flag_original(&self, v: &mut Vec<TrackEntryFields>)
        ensures
            models_of::<TrackEntryFields>(final(v)@) == models_of::<TrackEntryFields>(old(v)@) + (match &self.flag_original { Some(e) => seq![FieldModel::UInt { id: 0x55AE, idx: e.index, key: e.id, v: *e.v }], None => Seq::empty() }),
    {
        match &self.flag_original {
            Some(e) => {
                let ghost prevv = v@;
                v.push(TrackEntryFields::FlagOriginal(crate::dup_ebml_copy(e)));
                proof {
                    assert(models_of::<TrackEntryFields>(v@) =~= models_of::<TrackEntryFields>(prevv).push(v@.last().model()));
                    assert(models_of::<TrackEntryFields>(prevv).push(v@.last().model()) =~= models_of::<TrackEntryFields>(prevv) + (match &self.flag_original { Some(e) => seq![FieldModel::UInt { id: 0x55AE, idx: e.index, key: e.id, v: *e.v }], None => Seq::empty() }));
                }
            },
            None => {
                proof {
                    assert(models_of::<TrackEntryFields>(v@) =~= models_of::<TrackEntryFields>(v@) + (match &self.flag_original { Some(e) => seq![FieldModel::UInt { id: 0x55AE, idx: e.index, key: e.id, v: *e.v }], None => Seq::empty() }));
                }
            },
        }
    }

    /// Append the `flag_commentary` child values to a field run.
    #[verifier::loop_isolation(false)]
    fn push_flag_commentary(&self, v: &mut Vec<TrackEntryFields>)
        ensures
            models_of::<TrackEntryFields>(final(v)@) == models_of::<TrackEntryFields>(old(v)@) + (match &self.flag_commentary { Some(e) => seq![FieldModel::UInt { id: 0x55AF, idx: e.index, key: e.id, v: *e.v }], None => Seq::empty() }),
    {
        match &self.flag_commentary {
            Some(e) => {
                let ghost prevv = v@;
                v.push(TrackEntryFields::FlagCommentary(crate::dup_ebml_copy(e)));
                proof {
                    assert(models_of::<TrackEntryFields>(v@) =~= models_of::<TrackEntryFields>(prevv).push(v@.last().model()));
                    assert(models_of::<TrackEntryFields>(prevv).push(v@.last().model()) =~= models_of::<TrackEntryFields>(prevv) + (match &self.flag_commentary { Some(e) => seq![FieldModel::UInt { id: 0x55AF, idx: e.index, key: e.id, v: *e.v }], None => Seq::empty() }));
                }
            },
            None => {
                proof {
                    assert(models_of::<TrackEntryFields>(v@) =~= models_of::<TrackEntryFields>(v@) + (match &self.flag_commentary { Some(e) => seq![FieldModel::UInt { id: 0x55AF, idx: e.index, key: e.id, v: *e.v }], None => Seq::empty() }));
                }
            },
        }
    }

    /// Append the `flag_lacing` child values to a field run.
    #[verifier::loop_isolation(false)]
    fn push_flag_lacing(&self, v: &mut Vec<TrackEntryFields>)
        ensures
            models_of::<TrackEntryFields>(final(v)@) == models_of::<TrackEntryFields>(old(v)@) + seq![FieldModel::UInt { id: 0x9C, idx: self.flag_lacing.index, key: self.flag_lacing.id, v: *self.flag_lacing.v }],
    {
        let ghost prevv = v@;
        v.push(TrackEntryFields::FlagLacing(crate::dup_ebml_copy(&self.flag_lacing)));
        proof {
            assert(models_of::<TrackEntryFields>(v@) =~= models_of::<TrackEntryFields>(prevv).push(v@.last().model()));
            assert(models_of::<TrackEntryFields>(prevv).push(v@.last().model()) =~= models_of::<TrackEntryFields>(prevv) + seq![FieldModel::UInt { id: 0x9C, idx: self.flag_lacing.index, key: self.flag_lacing.id, v: *self.flag_lacing.v }]);
        }
    }

    /// Append the `min_cache` child values to a field run.
    #[verifier::loop_isolation(false)]
    fn push_min_cache(&self, v: &mut Vec<TrackEntryFields>)
        ensures
            models_of::<TrackEntryFields>(final(v)@) == models_of::<TrackEntryFields>(old(v)@) + seq![FieldModel::UInt { id: 0x6DE7, idx: self.min_cache.index, key: self.min_cache.id, v: *self.min_cache.v }],
    {
        let ghost prevv = v@;
        v.push(TrackEntryFields::MinCache(crate::dup_ebml_copy(&self.min_cache)));
        proof {
            assert(models_of::<TrackEntryFields>(v@) =~= models_of::<TrackEntryFields>(prevv).push(v@.last().model()));
            assert(models_of::<TrackEntryFields>(prevv).push(v@.last().model()) =~= models_of::<TrackEntryFields>(prevv) + seq![FieldModel::UInt { id: 0x6DE7, idx: self.min_cache.index, key: self.min_cache.id, v: *self.min_cache.v }]);
        }
    }

    /// Append the `max_cache` child values to a field run.
    #[verifier::loop_isolation(false)]
    fn push_max_cache(&self, v: &mut Vec<TrackEntryFields>)
        ensures
            models_of::<TrackEntryFields>(final(v)@) == models_of::<TrackEntryFields>(old(v)@) + (match &self.max_cache { Some(e) => seq![FieldModel::UInt { id: 0x6DF8, idx: e.index, key: e.id, v: *e.v }], None => Seq::empty() }),
    {
        match &self.max_cache {
            Some(e) => {
                let ghost prevv = v@;
                v.push(TrackEntryFields::MaxCache(crate::dup_ebml_copy(e)));
                proof {
                    assert(models_of::<TrackEntryFields>(v@) =~= models_of::<TrackEntryFields>(prevv).push(v@.last().model()));
                    assert(models_of::<TrackEntryFields>(prevv).push(v@.last().model()) =~= models_of::<TrackEntryFields>(prevv) + (match &self.max_cache { Some(e) => seq![FieldModel::UInt { id: 0x6DF8, idx: e.index, key: e.id, v: *e.v }], None => Seq::empty() }));
                }
            },
            None => {
                proof {
                    assert(models_of::<TrackEntryFields>(v@) =~= models_of::<TrackEntryFields>(v@) + (match &self.max_cache { Some(e) => seq![FieldModel::UInt { id: 0x6DF8, idx: e.index, key: e.id, v: *e.v }], None => Seq::empty() }));
                }
            },
        }
    }

    /// Append the `default_duration` child values to a field run.
    #[verifier::loop_isolation(false)]
    fn push_default_duration(&self, v: &mut Vec<TrackEntryFields>)
        ensures
            models_of::<TrackEntryFields>(final(v)@) == models_of::<TrackEntryFields>(old(v)@) + (match &self.default_duration { Some(e) => seq![FieldModel::UInt { id: 0x23E383, idx: e.index, key: e.id, v: *e.v }], None => Seq::empty() }),
    {
        match &self.default_duration {
            Some(e) => {
                let ghost prevv = v@;
                v.push(TrackEntryFields::DefaultDuration(crate::dup_ebml_copy(e)));
                proof {
                    assert(models_of::<TrackEntryFields>(v@) =~= models_of::<TrackEntryFields>(prevv).push(v@.last().model()));
                    assert(models_of::<TrackEntryFields>(prevv).push(v@.last().model()) =~= models_of::<TrackEntryFields>(prevv) + (match &self.default_duration { Some(e) => seq![FieldModel::UInt { id: 0x23E383, idx: e.index, key: e.id, v: *e.v }], None => Seq::empty() }));
                }
            },
            None => {
                proof {
                    assert(models_of::<TrackEntryFields>(v@) =~= models_of::<TrackEntryFields>(v@) + (match &self.default_duration { Some(e) => seq![FieldModel::UInt { id: 0x23E383, idx: e.index, key: e.id, v: *e.v }], None => Seq::empty() }));
                }
            },
        }
    }

    /// Append the `default_decoded_field_duration` child values to a field run.
    #[verifier::loop_isolation(false)]
    fn push_default_decoded_field_duration(&self, v: &mut Vec<TrackEntryFields>)
        ensures
            models_of::<TrackEntryFields>(final(v)@) == models_of::<TrackEntryFields>(old(v)@) + (match &self.default_decoded_field_duration { Some(e) => seq![FieldModel::UInt { id: 0x234E7A, idx: e.index, key: e.id, v: *e.v }], None => Seq::empty() }),
    {
        match &self.default_decoded_field_duration {
            Some(e) => {
                let ghost prevv = v@;
                v.push(TrackEntryFields::DefaultDecodedFieldDuration(crate::dup_ebml_copy(e)));
                proof {
                    assert(models_of::<TrackEntryFields>(v@) =~= models_of::<TrackEntryFields>(prevv).push(v@.last().model()));
                    assert(models_of::<TrackEntryFields>(prevv).push(v@.last().model()) =~= models_of::<TrackEntryFields>(prevv) + (match &self.default_decoded_field_duration { Some(e) => seq![FieldModel::UInt { id: 0x234E7A, idx: e.index, key: e.id, v: *e.v }], None => Seq::empty() }));
                }
            },
            None => {
                proof {
                    assert(models_of::<TrackEntryFields>(v@) =~= models_of::<TrackEntryFields>(v@) + (match &self.default_decoded_field_duration { Some(e) => seq![FieldModel::UInt { id: 0x234E7A, idx: e.index, key: e.id, v: *e.v }], None => Seq::empty() }));
                }
            },
        }
    }

    /// Append the `track_timestamp_scale` child values to a field run.
    #[verifier::loop_isolation(false)]
    fn push_track_timestamp_scale(&self, v: &mut Vec<TrackEntryFields>)
        ensures
            models_of::<TrackEntryFields>(final(v)@) == models_of::<TrackEntryFields>(old(v)@) + seq![FieldModel::Flt64 { id: 0x23314F, idx: self.track_timestamp_scale.index, key: self.track_timestamp_scale.id, bits: *self.track_timestamp_scale.v }],
    {
        let ghost prevv = v@;
        v.push(TrackEntryFields::TrackTimestampScale(crate::dup_ebml_copy(&self.track_timestamp_scale)));
        proof {
            assert(models_of::<TrackEntryFields>(v@) =~= models_of::<TrackEntryFields>(prevv).push(v@.last().model()));
            assert(models_of::<TrackEntryFields>(prevv).push(v@.last().model()) =~= models_of::<TrackEntryFields>(prevv) + seq![FieldModel::Flt64 { id: 0x23314F, idx: self.track_timestamp_scale.index, key: self.track_timestamp_scale.id, bits: *self.track_timestamp_scale.v }]);
        }
    }

    /// Append the `track_offset` child values to a field run.
    #[verifier::loop_isolation(false)]
    fn push_track_offset(&self, v: &mut Vec<TrackEntryFields>)
        ensures
            models_of::<TrackEntryFields>(final(v)@) == models_of::<TrackEntryFields>(old(v)@) + (match &self.track_offset { Some(e) => seq![FieldModel::SInt { id: 0x537F, idx: e.index, key: e.id, v: *e.v }], None => Seq::empty() }),
    {
        match &self.track_offset {
            Some(e) => {
                let ghost prevv = v@;
                v.push(TrackEntryFields::TrackOffset(crate::dup_ebml_copy(e)));
                proof {
                    assert(models_of::<TrackEntryFields>(v@) =~= models_of::<TrackEntryFields>(prevv).push(v@.last().model()));
                    assert(models_of::<TrackEntryFields>(prevv).push(v@.last().model()) =~= models_of::<TrackEntryFields>(prevv) + (match &self.track_offset { Some(e) => seq![FieldModel::SInt { id: 0x537F, idx: e.index, key: e.id, v: *e.v }], None => Seq::empty() }));
                }
            },
            None => {
                proof {
                    assert(models_of::<TrackEntryFields>(v@) =~= models_of::<TrackEntryFields>(v@) + (match &self.track_offset { Some(e) => seq![FieldModel::SInt { id: 0x537F, idx: e.index, key: e.id, v: *e.v }], None => Seq::empty() }));
                }
            },
        }
    }

    /// Append the `max_block_addition_id` child values to a field run.
    #[verifier::loop_isolation(false)]
    fn push_max_block_addition_id(&self, v: &mut Vec<TrackEntryFields>)
        ensures
            models_of::<TrackEntryFields>(final(v)@) == models_of::<TrackEntryFields>(old(v)@) + seq![FieldModel::UInt { id: 0x55EE, idx: self.max_block_addition_id.index, key: self.max_block_addition_id.id, v: *self.max_block_addition_id.v }],
    {
        let ghost prevv = v@;
        v.push(TrackEntryFields::MaxBlockAdditionId(crate::dup_ebml_copy(&self.max_block_addition_id)));
        proof {
            assert(models_of::<TrackEntryFields>(v@) =~= models_of::<TrackEntryFields>(prevv).push(v@.last().model()));
            assert(models_of::<TrackEntryFields>(prevv).push(v@.last().model()) =~= models_of::<TrackEntryFields>(prevv) + seq![FieldModel::UInt { id: 0x55EE, idx: self.max_block_addition_id.index, key: self.max_block_addition_id.id, v: *self.max_block_addition_id.v }]);
        }
    }

    /// Append the `block_addition_mapping` child values to a field run.
    #[verifier::loop_isolation(false)]
    fn push_block_addition_mapping(&self, v: &mut Vec<TrackEntryFields>)
        ensures
            models_of::<TrackEntryFields>(final(v)@) == models_of::<TrackEntryFields>(old(v)@) + trackentry_block_addition_mapping_models(self.block_addition_mapping@),
    {
        let ghost base = models_of::<TrackEntryFields>(v@);
        let mut i: usize = 0;
        while i < self.block_addition_mapping.len()
            invariant
                i <= self.block_addition_mapping@.len(),
                models_of::<TrackEntryFields>(v@) == base + trackentry_block_addition_mapping_models(self.block_addition_mapping@.take(i as int)),
            decreases self.block_addition_mapping@.len() - i,
        {
            let e = &self.block_addition_mapping[i];
            let d = (&*e.v).duplicate();
            proof {
                reveal(BlockAdditionMapping::model);
                assert(d.model() == (*e.v).model());
            }
            let ghost prevv = v@;
            v.push(TrackEntryFields::BlockAdditionMapping(Ebml { index: e.index, v: Box::new(d), id: e.id }));
            proof {
                assert(self.block_addition_mapping@.take(i + 1) =~= self.block_addition_mapping@.take(i as int).push(self.block_addition_mapping@[i as int]));
                assert(models_of::<TrackEntryFields>(v@) =~= models_of::<TrackEntryFields>(prevv).push(v@.last().model()));
                assert(trackentry_block_addition_mapping_models(self.block_addition_mapping@.take(i + 1)) =~= trackentry_block_addition_mapping_models(self.block_addition_mapping@.take(i as int)).push(v@.last().model()));
                assert(base + trackentry_block_addition_mapping_models(self.block_addition_mapping@.take(i + 1)) =~= (base + trackentry_block_addition_mapping_models(self.block_addition_mapping@.take(i as int))).push(v@.last().model()));
            }
            i += 1;
        }
        proof {
            assert(self.block_addition_mapping@.take(self.block_addition_mapping@.len() as int) =~= self.block_addition_mapping@);
        }
    }

    /// Append the `name` child values to a field run.
    #[verifier::loop_isolation(false)]
    fn push_name(&self, v: &mut Vec<TrackEntryFields>)
        ensures
            models_of::<TrackEntryFields>(final(v)@) == models_of::<TrackEntryFields>(old(v)@) + (match &self.name { Some(e) => seq![FieldModel::Text { id: 0x536E, idx: e.index, key: e.id, s: (*e.v)@ }], None => Seq::empty() }),
    {
        match &self.name {
            Some(e) => {
                let ghost prevv = v@;
                v.push(TrackEntryFields::Name(crate::dup_ebml_string(e)));
                proof {
                    assert(models_of::<TrackEntryFields>(v@) =~= models_of::<TrackEntryFields>(prevv).push(v@.last().model()));
                    assert(models_of::<TrackEntryFields>(prevv).push(v@.last().model()) =~= models_of::<TrackEntryFields>(prevv) + (match &self.name { Some(e) => seq![FieldModel::Text { id: 0x536E, idx: e.index, key: e.id, s: (*e.v)@ }], None => Seq::empty() }));
                }
            },
            None => {
                proof {
                    assert(models_of::<TrackEntryFields>(v@) =~= models_of::<TrackEntryFields>(v@) + (match &self.name { Some(e) => seq![FieldModel::Text { id: 0x536E, idx: e.index, key: e.id, s: (*e.v)@ }], None => Seq::empty() }));
                }
            },
        }
    }

    /// Append the `language` child values to a field run.
    #[verifier::loop_isolation(false)]
    fn push_language(&self, v: &mut Vec<TrackEntryFields>)
        ensures
            models_of::<TrackEntryFields>(final(v)@) == models_of::<TrackEntryFields>(old(v)@) + seq![FieldModel::Text { id: 0x22B59C, idx: self.language.index, key: self.language.id, s: (*self.language.v)@ }],
    {
        let ghost prevv = v@;
        v.push(TrackEntryFields::Language(crate::dup_ebml_string(&self.language)));
        proof {
            assert(models_of::<TrackEntryFields>(v@) =~= models_of::<TrackEntryFields>(prevv).push(v@.last().model()));
            assert(models_of::<TrackEntryFields>(prevv).push(v@.last().model()) =~= models_of::<TrackEntryFields>(prevv) + seq![FieldModel::Text { id: 0x22B59C, idx: self.language.index, key: self.language.id, s: (*self.language.v)@ }]);
        }
    }

    /// Append the `language_bcp_47` child values to a field run.
    #[verifier::loop_isolation(false)]
    fn push_language_bcp_47(&self, v: &mut Vec<TrackEntryFields>)
        ensures
            models_of::<TrackEntryFields>(final(v)@) == models_of::<TrackEntryFields>(old(v)@) + (match &self.language_bcp_47 { Some(e) => seq![FieldModel::Text { id: 0x22B59D, idx: e.index, key: e.id, s: (*e.v)@ }], None => Seq::empty() }),
    {
        match &self.language_bcp_47 {
            Some(e) => {
                let ghost prevv = v@;
                v.push(TrackEntryFields::LanguageBcp47(crate::dup_ebml_string(e)));
                proof {
                    assert(models_of::<TrackEntryFields>(v@) =~= models_of::<TrackEntryFields>(prevv).push(v@.last().model()));
                    assert(models_of::<TrackEntryFields>(prevv).push(v@.last().model()) =~= models_of::<TrackEntryFields>(prevv) + (match &self.language_bcp_47 { Some(e) => seq![FieldModel::Text { id: 0x22B59D, idx: e.index, key: e.id, s: (*e.v)@ }], None => Seq::empty() }));
                }
            },
            None => {
                proof {
                    assert(models_of::<TrackEntryFields>(v@) =~= models_of::<TrackEntryFields>(v@) + (match &self.language_bcp_47 { Some(e) => seq![FieldModel::Text { id: 0x22B59D, idx: e.index, key: e.id, s: (*e.v)@ }], None => Seq::empty() }));
                }
            },
        }
    }

    /// Append the `codec_id` child values to a field run.
    #[verifier::loop_isolation(false)]
    fn push_codec_id(&self, v: &mut Vec<TrackEntryFields>)
        ensures
            models_of::<TrackEntryFields>(final(v)@) == models_of::<TrackEntryFields>(old(v)@) + seq![FieldModel::Text { id: 0x86, idx: self.codec_id.index, key: self.codec_id.id, s: (*self.codec_id.v)@ }],
    {
        let ghost prevv = v@;
        v.push(TrackEntryFields::CodecId(crate::dup_ebml_string(&self.codec_id)));
        proof {
            assert(models_of::<TrackEntryFields>(v@) =~= models_of::<TrackEntryFields>(prevv).push(v@.last().model()));
            assert(models_of::<TrackEntryFields>(prevv).push(v@.last().model()) =~= models_of::<TrackEntryFields>(prevv) + seq![FieldModel::Text { id: 0x86, idx: self.codec_id.index, key: self.codec_id.id, s: (*self.codec_id.v)@ }]);
        }
    }

    /// Append the `codec_private` child values to a field run.
    #[verifier::loop_isolation(false)]
    fn push_codec_private(&self, v: &mut Vec<TrackEntryFields>)
        ensures
            models_of::<TrackEntryFields>(final(v)@) == models_of::<TrackEntryFields>(old(v)@) + (match &self.codec_private { Some(e) => seq![FieldModel::Bin { id: 0x63A2, idx: e.index, key: e.id, b: (*e.v)@ }], None => Seq::empty() }),
    {
        match &self.codec_private {
            Some(e) => {
                let ghost prevv = v@;
                v.push(TrackEntryFields::CodecPrivate(crate::dup_ebml_bytes(e)));
                proof {
                    assert(models_of::<TrackEntryFields>(v@) =~= models_of::<TrackEntryFields>(prevv).push(v@.last().model()));
                    assert(models_of::<TrackEntryFields>(prevv).push(v@.last().model()) =~= models_of::<TrackEntryFields>(prevv) + (match &self.codec_private { Some(e) => seq![FieldModel::Bin { id: 0x63A2, idx: e.index, key: e.id, b: (*e.v)@ }], None => Seq::empty() }));
                }
            },
            None => {
                proof {
                    assert(models_of::<TrackEntryFields>(v@) =~= models_of::<TrackEntryFields>(v@) + (match &self.codec_private { Some(e) => seq![FieldModel::Bin { id: 0x63A2, idx: e.index, key: e.id, b: (*e.v)@ }], None => Seq::empty() }));
                }
            },
        }
    }

    /// Append the `codec_name` child values to a field run.
    #[verifier::loop_isolation(false)]
    fn push_codec_name(&self, v: &mut Vec<TrackEntryFields>)
        ensures
            models_of::<TrackEntryFields>(final(v)@) == models_of::<TrackEntryFields>(old(v)@) + (match &self.codec_name { Some(e) => seq![FieldModel::Text { id: 0x258688, idx: e.index, key: e.id, s: (*e.v)@ }], None => Seq::empty() }),
    {
        match &self.codec_name {
            Some(e) => {
                let ghost prevv = v@;
                v.push(TrackEntryFields::CodecName(crate::dup_ebml_string(e)));
                proof {
                    assert(models_of::<TrackEntryFields>(v@) =~= models_of::<TrackEntryFields>(prevv).push(v@.last().model()));
                    assert(models_of::<TrackEntryFields>(prevv).push(v@.last().model()) =~= models_of::<TrackEntryFields>(prevv) + (match &self.codec_name { Some(e) => seq![FieldModel::Text { id: 0x258688, idx: e.index, key: e.id, s: (*e.v)@ }], None => Seq::empty() }));
                }
            },
            None => {
                proof {
                    assert(models_of::<TrackEntryFields>(v@) =~= models_of::<TrackEntryFields>(v@) + (match &self.codec_name { Some(e) => seq![FieldModel::Text { id: 0x258688, idx: e.index, key: e.id, s: (*e.v)@ }], None => Seq::empty() }));
                }
            },
        }
    }

    /// Append the `attachment_link` child values to a field run.
    #[verifier::loop_isolation(false)]
    fn push_attachment_link(&self, v: &mut Vec<TrackEntryFields>)
        ensures
            models_of::<TrackEntryFields>(final(v)@) == models_of::<TrackEntryFields>(old(v)@) + (match &self.attachment_link { Some(e) => seq![FieldModel::UInt { id: 0x7446, idx: e.index, key: e.id, v: *e.v }], None => Seq::empty() }),
    {
        match &self.attachment_link {
            Some(e) => {
                let ghost prevv = v@;
                v.push(TrackEntryFields::AttachmentLink(crate::dup_ebml_copy(e)));
                proof {
                    assert(models_of::<TrackEntryFields>(v@) =~= models_of::<TrackEntryFields>(prevv).push(v@.last().model()));
                    assert(models_of::<TrackEntryFields>(prevv).push(v@.last().model()) =~= models_of::<TrackEntryFields>(prevv) + (match &self.attachment_link { Some(e) => seq![FieldModel::UInt { id: 0x7446, idx: e.index, key: e.id, v: *e.v }], None => Seq::empty() }));
                }
            },
            None => {
                proof {
                    assert(models_of::<TrackEntryFields>(v@) =~= models_of::<TrackEntryFields>(v@) + (match &self.attachment_link { Some(e) => seq![FieldModel::UInt { id: 0x7446, idx: e.index, key: e.id, v: *e.v }], None => Seq::empty() }));
                }
            },
        }
    }

    /// Append the `codec_settings` child values to a field run.
    #[verifier::loop_isolation(false)]
    fn push_codec_settings(&self, v: &mut Vec<TrackEntryFields>)
        ensures
            models_of::<TrackEntryFields>(final(v)@) == models_of::<TrackEntryFields>(old(v)@) + (match &self.codec_settings { Some(e) => seq![FieldModel::Text { id: 0x3A9697, idx: e.index, key: e.id, s: (*e.v)@ }], None => Seq::empty() }),
    {
        match &self.codec_settings {
            Some(e) => {
                let ghost prevv = v@;
                v.push(TrackEntryFields::CodecSettings(crate::dup_ebml_string(e)));
                proof {
                    assert(models_of::<TrackEntryFields>(v@) =~= models_of::<TrackEntryFields>(prevv).push(v@.last().model()));
                    assert(models_of::<TrackEntryFields>(prevv).push(v@.last().model()) =~= models_of::<TrackEntryFields>(prevv) + (match &self.codec_settings { Some(e) => seq![FieldModel::Text { id: 0x3A9697, idx: e.index, key: e.id, s: (*e.v)@ }], None => Seq::empty() }));
                }
            },
            None => {
                proof {
                    assert(models_of::<TrackEntryFields>(v@) =~= models_of::<TrackEntryFields>(v@) + (match &self.codec_settings { Some(e) => seq![FieldModel::Text { id: 0x3A9697, idx: e.index, key: e.id, s: (*e.v)@ }], None => Seq::empty() }));
                }
            },
        }
    }

    /// Append the `codec_info_url` child values to a field run.
    #[verifier::loop_isolation(false)]
    fn push_codec_info_url(&self, v: &mut Vec<TrackEntryFields>)
        ensures
            models_of::<TrackEntryFields>(final(v)@) == models_of::<TrackEntryFields>(old(v)@) + trackentry_codec_info_url_models(self.codec_info_url@),
    {
        let ghost base = models_of::<TrackEntryFields>(v@);
        let mut i: usize = 0;
        while i < self.codec_info_url.len()
            invariant
                i <= self.codec_info_url@.len(),
                models_of::<TrackEntryFields>(v@) == base + trackentry_codec_info_url_models(self.codec_info_url@.take(i as int)),
            decreases self.codec_info_url@.len() - i,
        {
            let e = &self.codec_info_url[i];
            let ghost prevv = v@;
            v.push(TrackEntryFields::CodecInfoUrl(crate::dup_ebml_string(e)));
            proof {
                assert(self.codec_info_url@.take(i + 1) =~= self.codec_info_url@.take(i as int).push(self.codec_info_url@[i as int]));
                assert(models_of::<TrackEntryFields>(v@) =~= models_of::<TrackEntryFields>(prevv).push(v@.last().model()));
                assert(trackentry_codec_info_url_models(self.codec_info_url@.take(i + 1)) =~= trackentry_codec_info_url_models(self.codec_info_url@.take(i as int)).push(v@.last().model()));
                assert(base + trackentry_codec_info_url_models(self.codec_info_url@.take(i + 1)) =~= (base + trackentry_codec_info_url_models(self.codec_info_url@.take(i as int))).push(v@.last().model()));
            }
            i += 1;
        }
        proof {
            assert(self.codec_info_url@.take(self.codec_info_url@.len() as int) =~= self.codec_info_url@);
        }
    }

    /// Append the `codec_download_url` child values to a field run.
    #[verifier::loop_isolation(false)]
    fn push_codec_download_url(&self, v: &mut Vec<TrackEntryFields>)
        ensures
            models_of::<TrackEntryFields>(final(v)@) == models_of::<TrackEntryFields>(old(v)@) + trackentry_codec_download_url_models(self.codec_download_url@),
    {
        let ghost base = models_of::<TrackEntryFields>(v@);
        let mut i: usize = 0;
        while i < self.codec_download_url.len()
            invariant
                i <= self.codec_download_url@.len(),
                models_of::<TrackEntryFields>(v@) == base + trackentry_codec_download_url_models(self.codec_download_url@.take(i as int)),
            decreases self.codec_download_url@.len() - i,
        {
            let e = &self.codec_download_url[i];
            let ghost prevv = v@;
            v.push(TrackEntryFields::CodecDownloadUrl(crate::dup_ebml_string(e)));
            proof {
                assert(self.codec_download_url@.take(i + 1) =~= self.codec_download_url@.take(i as int).push(self.codec_download_url@[i as int]));
                assert(models_of::<TrackEntryFields>(v@) =~= models_of::<TrackEntryFields>(prevv).push(v@.last().model()));
                assert(trackentry_codec_download_url_models(self.codec_download_url@.take(i + 1)) =~= trackentry_codec_download_url_models(self.codec_download_url@.take(i as int)).push(v@.last().model()));
                assert(base + trackentry_codec_download_url_models(self.codec_download_url@.take(i + 1)) =~= (base + trackentry_codec_download_url_models(self.codec_download_url@.take(i as int))).push(v@.last().model()));
            }
            i += 1;
        }
        proof {
            assert(self.codec_download_url@.take(self.codec_download_url@.len() as int) =~= self.codec_download_url@);
        }
    }

    /// Append the `codec_decode_all` child values to a field run.
    #[verifier::loop_isolation(false)]
    fn push_codec_decode_all(&self, v: &mut Vec<TrackEntryFields>)
        ensures
            models_of::<TrackEntryFields>(final(v)@) == models_of::<TrackEntryFields>(old(v)@) + seq![FieldModel::UInt { id: 0xAA, idx: self.codec_decode_all.index, key: self.codec_decode_all.id, v: *self.codec_decode_all.v }],
    {
        let ghost prevv = v@;
        v.push(TrackEntryFields::CodecDecodeAll(crate::dup_ebml_copy(&self.codec_decode_all)));
        proof {
            assert(models_of::<TrackEntryFields>(v@) =~= models_of::<TrackEntryFields>(prevv).push(v@.last().model()));
            assert(models_of::<TrackEntryFields>(prevv).push(v@.last().model()) =~= models_of::<TrackEntryFields>(prevv) + seq![FieldModel::UInt { id: 0xAA, idx: self.codec_decode_all.index, key: self.codec_decode_all.id, v: *self.codec_decode_all.v }]);
        }
    }

    /// Append the `track_overlay` child values to a field run.
    #[verifier::loop_isolation(false)]
    fn push_track_overlay(&self, v: &mut Vec<TrackEntryFields>)
        ensures
            models_of::<TrackEntryFields>(final(v)@) == models_of::<TrackEntryFields>(old(v)@) + trackentry_track_overlay_models(self.track_overlay@),
    {
        let ghost base = models_of::<TrackEntryFields>(v@);
        let mut i: usize = 0;
        while i < self.track_overlay.len()
            invariant
                i <= self.track_overlay@.len(),
                models_of::<TrackEntryFields>(v@) == base + trackentry_track_overlay_models(self.track_overlay@.take(i as int)),
            decreases self.track_overlay@.len() - i,
        {
            let e = &self.track_overlay[i];
            let ghost prevv = v@;
            v.push(TrackEntryFields::TrackOverlay(crate::dup_ebml_copy(e)));
            proof {
                assert(self.track_overlay@.take(i + 1) =~= self.track_overlay@.take(i as int).push(self.track_overlay@[i as int]));
                assert(models_of::<TrackEntryFields>(v@) =~= models_of::<TrackEntryFields>(prevv).push(v@.last().model()));
                assert(trackentry_track_overlay_models(self.track_overlay@.take(i + 1)) =~= trackentry_track_overlay_models(self.track_overlay@.take(i as int)).push(v@.last().model()));
                assert(base + trackentry_track_overlay_models(self.track_overlay@.take(i + 1)) =~= (base + trackentry_track_overlay_models(self.track_overlay@.take(i as int))).push(v@.last().model()));
            }
            i += 1;
        }
        proof {
            assert(self.track_overlay@.take(self.track_overlay@.len() as int) =~= self.track_overlay@);
        }
    }

    /// Append the `codec_delay` child values to a field run.
    #[verifier::loop_isolation(false)]
    fn push_codec_delay(&self, v: &mut Vec<TrackEntryFields>)
        ensures
            models_of::<TrackEntryFields>(final(v)@) == models_of::<TrackEntryFields>(old(v)@) + seq![FieldModel::UInt { id: 0x56AA, idx: self.codec_delay.index, key: self.codec_delay.id, v: *self.codec_delay.v }],
    {
        let ghost prevv = v@;
        v.push(TrackEntryFields::CodecDelay(crate::dup_ebml_copy(&self.codec_delay)));
        proof {
            assert(models_of::<TrackEntryFields>(v@) =~= models_of::<TrackEntryFields>(prevv).push(v@.last().model()));
            assert(models_of::<TrackEntryFields>(prevv).push(v@.last().model()) =~= models_of::<TrackEntryFields>(prevv) + seq![FieldModel::UInt { id: 0x56AA, idx: self.codec_delay.index, key: self.codec_delay.id, v: *self.codec_delay.v }]);
        }
    }

    /// Append the `seek_pre_roll` child values to a field run.
    #[verifier::loop_isolation(false)]
    fn push_seek_pre_roll(&self, v: &mut Vec<TrackEntryFields>)
        ensures
            models_of::<TrackEntryFields>(final(v)@) == models_of::<TrackEntryFields>(old(v)@) + seq![FieldModel::UInt { id: 0x56BB, idx: self.seek_pre_roll.index, key: self.seek_pre_roll.id, v: *self.seek_pre_roll.v }],
    {
        let ghost prevv = v@;
        v.push(TrackEntryFields::SeekPreRoll(crate::dup_ebml_copy(&self.seek_pre_roll)));
        proof {
            assert(models_of::<TrackEntryFields>(v@) =~= models_of::<TrackEntryFields>(prevv).push(v@.last().model()));
            assert(models_of::<TrackEntryFields>(prevv).push(v@.last().model()) =~= models_of::<TrackEntryFields>(prevv) + seq![FieldModel::UInt { id: 0x56BB, idx: self.seek_pre_roll.index, key: self.seek_pre_roll.id, v: *self.seek_pre_roll.v }]);
        }
    }

    /// Append the `track_translate` child values to a field run.
    #[verifier::loop_isolation(false)]
    fn push_track_translate(&self, v: &mut Vec<TrackEntryFields>)
        ensures
            models_of::<TrackEntryFields>(final(v)@) == models_of::<TrackEntryFields>(old(v)@) + trackentry_track_translate_models(self.track_translate@),
    {
        let ghost base = models_of::<TrackEntryFields>(v@);
        let mut i: usize = 0;
        while i < self.track_translate.len()
            invariant
                i <= self.track_translate@.len(),
                models_of::<TrackEntryFields>(v@) == base + trackentry_track_translate_models(self.track_translate@.take(i as int)),
            decreases self.track_translate@.len() - i,
        {
            let e = &self.track_translate[i];
            let d = (&*e.v).duplicate();
            proof {
                reveal(TrackTranslate::model);
                assert(d.model() == (*e.v).model());
            }
            let ghost prevv = v@;
            v.push(TrackEntryFields::TrackTranslate(Ebml { index: e.index, v: Box::new(d), id: e.id }));
            proof {
                assert(self.track_translate@.take(i + 1) =~= self.track_translate@.take(i as int).push(self.track_translate@[i as int]));
                assert(models_of::<TrackEntryFields>(v@) =~= models_of::<TrackEntryFields>(prevv).push(v@.last().model()));
                assert(trackentry_track_translate_models(self.track_translate@.take(i + 1)) =~= trackentry_track_translate_models(self.track_translate@.take(i as int)).push(v@.last().model()));
                assert(base + trackentry_track_translate_models(self.track_translate@.take(i + 1)) =~= (base + trackentry_track_translate_models(self.track_translate@.take(i as int))).push(v@.last().model()));
            }
            i += 1;
        }
        proof {
            assert(self.track_translate@.take(self.track_translate@.len() as int) =~= self.track_translate@);
        }
    }

    /// Append the `video` child values to a field run.
    #[verifier::loop_isolation(false)]
    fn push_video(&self, v: &mut Vec<TrackEntryFields>)
        ensures
            models_of::<TrackEntryFields>(final(v)@) == models_of::<TrackEntryFields>(old(v)@) + (match &self.video { Some(e) => seq![FieldModel::Node { id: 0xE0, idx: e.index, key: e.id, children: (*e.v).model() }], None => Seq::empty() }),
    {
        match &self.video {
            Some(e) => {
                let d = (&*e.v).duplicate();
                proof {
                    reveal(Video::model);
                    assert(d.model() == (*e.v).model());
                }
                let ghost prevv = v@;
                v.push(TrackEntryFields::Video(Ebml { index: e.index, v: Box::new(d), id: e.id }));
                proof {
                    assert(models_of::<TrackEntryFields>(v@) =~= models_of::<TrackEntryFields>(prevv).push(v@.last().model()));
                    assert(models_of::<TrackEntryFields>(prevv).push(v@.last().model()) =~= models_of::<TrackEntryFields>(prevv) + (match &self.video { Some(e) => seq![FieldModel::Node { id: 0xE0, idx: e.index, key: e.id, children: (*e.v).model() }], None => Seq::empty() }));
                }
            },
            None => {
                proof {
                    assert(models_of::<TrackEntryFields>(v@) =~= models_of::<TrackEntryFields>(v@) + (match &self.video { Some(e) => seq![FieldModel::Node { id: 0xE0, idx: e.index, key: e.id, children: (*e.v).model() }], None => Seq::empty() }));
                }
            },
        }
    }

    /// Append the `audio` child values to a field run.
    #[verifier::loop_isolation(false)]
    fn push_audio(&self, v: &mut Vec<TrackEntryFields>)
        ensures
            models_of::<TrackEntryFields>(final(v)@) == models_of::<TrackEntryFields>(old(v)@) + (match &self.audio { Some(e) => seq![FieldModel::Node { id: 0xE1, idx: e.index, key: e.id, children: (*e.v).model() }], None => Seq::empty() }),
    {
        match &self.audio {
            Some(e) => {
                let d = (&*e.v).duplicate();
                proof {
                    reveal(Audio::model);
                    assert(d.model() == (*e.v).model());
                }
                let ghost prevv = v@;
                v.push(TrackEntryFields::Audio(Ebml { index: e.index, v: Box::new(d), id: e.id }));
                proof {
                    assert(models_of::<TrackEntryFields>(v@) =~= models_of::<TrackEntryFields>(prevv).push(v@.last().model()));
                    assert(models_of::<TrackEntryFields>(prevv).push(v@.last().model()) =~= models_of::<TrackEntryFields>(prevv) + (match &self.audio { Some(e) => seq![FieldModel::Node { id: 0xE1, idx: e.index, key: e.id, children: (*e.v).model() }], None => Seq::empty() }));
                }
            },
            None => {
                proof {
                    assert(models_of::<TrackEntryFields>(v@) =~= models_of::<TrackEntryFields>(v@) + (match &self.audio { Some(e) => seq![FieldModel::Node { id: 0xE1, idx: e.index, key: e.id, children: (*e.v).model() }], None => Seq::empty() }));
                }
            },
        }
    }

    /// Append the `track_operation` child values to a field run.
    #[verifier::loop_isolation(false)]
    fn push_track_operation(&self, v: &mut Vec<TrackEntryFields>)
        ensures
            models_of::<TrackEntryFields>(final(v)@) == models_of::<TrackEntryFields>(old(v)@) + (match &self.track_operation { Some(e) => seq![FieldModel::Node { id: 0xE2, idx: e.index, key: e.id, children: (*e.v).model() }], None => Seq::empty() }),
    {
        match &self.track_operation {
            Some(e) => {
                let d = (&*e.v).duplicate();
                proof {
                    reveal(TrackOperation::model);
                    assert(d.model() == (*e.v).model());
                }
                let ghost prevv = v@;
                v.push(TrackEntryFields::TrackOperation(Ebml { index: e.index, v: Box::new(d), id: e.id }));
                proof {
                    assert(models_of::<TrackEntryFields>(v@) =~= models_of::<TrackEntryFields>(prevv).push(v@.last().model()));
                    assert(models_of::<TrackEntryFields>(prevv).push(v@.last().model()) =~= models_of::<TrackEntryFields>(prevv) + (match &self.track_operation { Some(e) => seq![FieldModel::Node { id: 0xE2, idx: e.index, key: e.id, children: (*e.v).model() }], None => Seq::empty() }));
                }
            },
            None => {
                proof {
                    assert(models_of::<TrackEntryFields>(v@) =~= models_of::<TrackEntryFields>(v@) + (match &self.track_operation { Some(e) => seq![FieldModel::Node { id: 0xE2, idx: e.index, key: e.id, children: (*e.v).model() }], None => Seq::empty() }));
                }
            },
        }
    }

    /// Append the `trick_track_uid` child values to a field run.
    #[verifier::loop_isolation(false)]
    fn push_trick_track_uid(&self, v: &mut Vec<TrackEntryFields>)
        ensures
            models_of::<TrackEntryFields>(final(v)@) == models_of::<TrackEntryFields>(old(v)@) + (match &self.trick_track_uid { Some(e) => seq![FieldModel::UInt { id: 0xC0, idx: e.index, key: e.id, v: *e.v }], None => Seq::empty() }),
    {
        match &self.trick_track_uid {
            Some(e) => {
                let ghost prevv = v@;
                v.push(TrackEntryFields::TrickTrackUid(crate::dup_ebml_copy(e)));
                proof {
                    assert(models_of::<TrackEntryFields>(v@) =~= models_of::<TrackEntryFields>(prevv).push(v@.last().model()));
                    assert(models_of::<TrackEntryFields>(prevv).push(v@.last().model()) =~= models_of::<TrackEntryFields>(prevv) + (match &self.trick_track_uid { Some(e) => seq![FieldModel::UInt { id: 0xC0, idx: e.index, key: e.id, v: *e.v }], None => Seq::empty() }));
                }
            },
            None => {
                proof {
                    assert(models_of::<TrackEntryFields>(v@) =~= models_of::<TrackEntryFields>(v@) + (match &self.trick_track_uid { Some(e) => seq![FieldModel::UInt { id: 0xC0, idx: e.index, key: e.id, v: *e.v }], None => Seq::empty() }));
                }
            },
        }
    }

    /// Append the `trick_track_segment_uid` child values to a field run.
    #[verifier::loop_isolation(false)]
    fn push_trick_track_segment_uid(&self, v: &mut Vec<TrackEntryFields>)
        ensures
            models_of::<TrackEntryFields>(final(v)@) == models_of::<TrackEntryFields>(old(v)@) + (match &self.trick_track_segment_uid { Some(e) => seq![FieldModel::Bin { id: 0xC1, idx: e.index, key: e.id, b: (*e.v)@ }], None => Seq::empty() }),
    {
        match &self.trick_track_segment_uid {
            Some(e) => {
                let ghost prevv = v@;
                v.push(TrackEntryFields::TrickTrackSegmentUid(crate::dup_ebml_bytes(e)));
                proof {
                    assert(models_of::<TrackEntryFields>(v@) =~= models_of::<TrackEntryFields>(prevv).push(v@.last().model()));
                    assert(models_of::<TrackEntryFields>(prevv).push(v@.last().model()) =~= models_of::<TrackEntryFields>(prevv) + (match &self.trick_track_segment_uid { Some(e) => seq![FieldModel::Bin { id: 0xC1, idx: e.index, key: e.id, b: (*e.v)@ }], None => Seq::empty() }));
                }
            },
            None => {
                proof {
                    assert(models_of::<TrackEntryFields>(v@) =~= models_of::<TrackEntryFields>(v@) + (match &self.trick_track_segment_uid { Some(e) => seq![FieldModel::Bin { id: 0xC1, idx: e.index, key: e.id, b: (*e.v)@ }], None => Seq::empty() }));
                }
            },
        }
    }

    /// Append the `trick_track_flag` child values to a field run.
    #[verifier::loop_isolation(false)]
    fn push_trick_track_flag(&self, v: &mut Vec<TrackEntryFields>)
        ensures
            models_of::<TrackEntryFields>(final(v)@) == models_of::<TrackEntryFields>(old(v)@) + (match &self.trick_track_flag { Some(e) => seq![FieldModel::UInt { id: 0xC6, idx: e.index, key: e.id, v: *e.v }], None => Seq::empty() }),
    {
        match &self.trick_track_flag {
            Some(e) => {
                let ghost prevv = v@;
                v.push(TrackEntryFields::TrickTrackFlag(crate::dup_ebml_copy(e)));
                proof {
                    assert(models_of::<TrackEntryFields>(v@) =~= models_of::<TrackEntryFields>(prevv).push(v@.last().model()));
                    assert(models_of::<TrackEntryFields>(prevv).push(v@.last().model()) =~= models_of::<TrackEntryFields>(prevv) + (match &self.trick_track_flag { Some(e) => seq![FieldModel::UInt { id: 0xC6, idx: e.index, key: e.id, v: *e.v }], None => Seq::empty() }));
                }
            },
            None => {
                proof {
                    assert(models_of::<TrackEntryFields>(v@) =~= models_of::<TrackEntryFields>(v@) + (match &self.trick_track_flag { Some(e) => seq![FieldModel::UInt { id: 0xC6, idx: e.index, key: e.id, v: *e.v }], None => Seq::empty() }));
                }
            },
        }
    }

    /// Append the `trick_struct_track_uid` child values to a field run.
    #[verifier::loop_isolation(false)]
    fn push_trick_struct_track_uid(&self, v: &mut Vec<TrackEntryFields>)
        ensures
            models_of::<TrackEntryFields>(final(v)@) == models_of::<TrackEntryFields>(old(v)@) + (match &self.trick_struct_track_uid { Some(e) => seq![FieldModel::UInt { id: 0xC7, idx: e.index, key: e.id, v: *e.v }], None => Seq::empty() }),
    {
        match &self.trick_struct_track_uid {
            Some(e) => {
                let ghost prevv = v@;
                v.push(TrackEntryFields::TrickStructTrackUid(crate::dup_ebml_copy(e)));
                proof {
                    assert(models_of::<TrackEntryFields>(v@) =~= models_of::<TrackEntryFields>(prevv).push(v@.last().model()));
                    assert(models_of::<TrackEntryFields>(prevv).push(v@.last().model()) =~= models_of::<TrackEntryFields>(prevv) + (match &self.trick_struct_track_uid { Some(e) => seq![FieldModel::UInt { id: 0xC7, idx: e.index, key: e.id, v: *e.v }], None => Seq::empty() }));
                }
            },
            None => {
                proof {
                    assert(models_of::<TrackEntryFields>(v@) =~= models_of::<TrackEntryFields>(v@) + (match &self.trick_struct_track_uid { Some(e) => seq![FieldModel::UInt { id: 0xC7, idx: e.index, key: e.id, v: *e.v }], None => Seq::empty() }));
                }
            },
        }
    }

    /// Append the `trick_struct_track_segment_uid` child values to a field run.
    #[verifier::loop_isolation(false)]
    fn push_trick_struct_track_segment_uid(&self, v: &mut Vec<TrackEntryFields>)
        ensures
            models_of::<TrackEntryFields>(final(v)@) == models_of::<TrackEntryFields>(old(v)@) + (match &self.trick_struct_track_segment_uid { Some(e) => seq![FieldModel::Bin { id: 0xC4, idx: e.index, key: e.id, b: (*e.v)@ }], None => Seq::empty() }),
    {
        match &self.trick_struct_track_segment_uid {
            Some(e) => {
                let ghost prevv = v@;
                v.push(TrackEntryFields::TrickStructTrackSegmentUid(crate::dup_ebml_bytes(e)));
                proof {
                    assert(models_of::<TrackEntryFields>(v@) =~= models_of::<TrackEntryFields>(prevv).push(v@.last().model()));
                    assert(models_of::<TrackEntryFields>(prevv).push(v@.last().model()) =~= models_of::<TrackEntryFields>(prevv) + (match &self.trick_struct_track_segment_uid { Some(e) => seq![FieldModel::Bin { id: 0xC4, idx: e.index, key: e.id, b: (*e.v)@ }], None => Seq::empty() }));
                }
            },
            None => {
                proof {
                    assert(models_of::<TrackEntryFields>(v@) =~= models_of::<TrackEntryFields>(v@) + (match &self.trick_struct_track_segment_uid { Some(e) => seq![FieldModel::Bin { id: 0xC4, idx: e.index, key: e.id, b: (*e.v)@ }], None => Seq::empty() }));
                }
            },
        }
    }

    /// Append the `content_encodings` child values to a field run.
    #[verifier::loop_isolation(false)]
    fn push_content_encodings(&self, v: &mut Vec<TrackEntryFields>)
        ensures
            models_of::<TrackEntryFields>(final(v)@) == models_of::<TrackEntryFields>(old(v)@) + (match &self.content_encodings { Some(e) => seq![FieldModel::Node { id: 0x6D80, idx: e.index, key: e.id, children: (*e.v).model() }], None => Seq::empty() }),
    {
        match &self.content_encodings {
            Some(e) => {
                let d = (&*e.v).duplicate();
                proof {
                    reveal(ContentEncodings::model);
                    assert(d.model() == (*e.v).model());
                }
                let ghost prevv = v@;
                v.push(TrackEntryFields::ContentEncodings(Ebml { index: e.index, v: Box::new(d), id: e.id }));
                proof {
                    assert(models_of::<TrackEntryFields>(v@) =~= models_of::<TrackEntryFields>(prevv).push(v@.last().model()));
                    assert(models_of::<TrackEntryFields>(prevv).push(v@.last().model()) =~= models_of::<TrackEntryFields>(prevv) + (match &self.content_encodings { Some(e) => seq![FieldModel::Node { id: 0x6D80, idx: e.index, key: e.id, children: (*e.v).model() }], None => Seq::empty() }));
                }
            },
            None => {
                proof {
                    assert(models_of::<TrackEntryFields>(v@) =~= models_of::<TrackEntryFields>(v@) + (match &self.content_encodings { Some(e) => seq![FieldModel::Node { id: 0x6D80, idx: e.index, key: e.id, children: (*e.v).model() }], None => Seq::empty() }));
                }
            },
        }
    }

    /// The present children, each paired with its ID, in emission order.
    #[verifier::rlimit(100)]
    #[verifier::spinoff_prover]
    pub fn elements(&self) -> (r: Vec<TrackEntryFields>)
        ensures
            models_of::<TrackEntryFields>(r@) == self.model(),
    {
        let mut v: Vec<TrackEntryFields> = Vec::new();
        proof {
            assert(models_of::<TrackEntryFields>(v@) =~= Seq::<FieldModel>::empty());
        }
        self.push_chunk0(&mut v);
        self.push_chunk1(&mut v);
        self.push_chunk2(&mut v);
        self.push_chunk3(&mut v);
        self.push_chunk4(&mut v);
        self.push_chunk5(&mut v);
        proof {
            reveal(TrackEntry::raw_model);
            reveal(TrackEntry::model);
            assert(Seq::<FieldModel>::empty() + self.raw_chunk0() =~= self.raw_chunk0());
            assert(models_of::<TrackEntryFields>(v@) == self.raw_model());
        }
        sort_fields(v)
    }

    /// Append one run of child values to a field run.
    #[verifier::rlimit(100)]
    #[verifier::spinoff_prover]
    fn push_chunk0(&self, v: &mut Vec<TrackEntryFields>)
        ensures
            models_of::<TrackEntryFields>(final(v)@) == models_of::<TrackEntryFields>(old(v)@) + self.raw_chunk0(),
    {
        self.push_track_number(v);
        self.push_track_uid(v);
        self.push_track_type(v);
        self.push_flag_enabled(v);
        self.push_flag_default(v);
        self.push_flag_forced(v);
        self.push_flag_hearing_impaired(v);
        self.push_flag_visual_impaired(v);
        proof {
            reveal(TrackEntry::raw_chunk0);
            assert(models_of::<TrackEntryFields>(old(v)@) + seq![FieldModel::UInt { id: 0xD7, idx: self.track_number.index, key: self.track_number.id, v: *self.track_number.v }] =~= models_of::<TrackEntryFields>(old(v)@) + seq![FieldModel::UInt { id: 0xD7, idx: self.track_number.index, key: self.track_number.id, v: *self.track_number.v }]);
            assert(models_of::<TrackEntryFields>(v@) == models_of::<TrackEntryFields>(old(v)@) + self.raw_chunk0());
        }
    }

    /// Append one run of child values to a field run.
    #[verifier::rlimit(100)]
    #[verifier::spinoff_prover]
    fn push_chunk1(&self, v: &mut Vec<TrackEntryFields>)
        ensures
            models_of::<TrackEntryFields>(final(v)@) == models_of::<TrackEntryFields>(old(v)@) + self.raw_chunk1(),
    {
        self.push_flag_text_descriptions(v);
        self.push_flag_original(v);
        self.push_flag_commentary(v);
        self.push_flag_lacing(v);
        self.push_min_cache(v);
        self.push_max_cache(v);
        self.push_default_duration(v);
        self.push_default_decoded_field_duration(v);
        proof {
            reveal(TrackEntry::raw_chunk1);
            assert(models_of::<TrackEntryFields>(old(v)@) + (match &self.flag_text_descriptions { Some(e) => seq![FieldModel::UInt { id: 0x55AD, idx: e.index, key: e.id, v: *e.v }], None => Seq::empty() }) =~= models_of::<TrackEntryFields>(old(v)@) + (match &self.flag_text_descriptions { Some(e) => seq![FieldModel::UInt { id: 0x55AD, idx: e.index, key: e.id, v: *e.v }], None => Seq::empty() }));
            assert(models_of::<TrackEntryFields>(v@) == models_of::<TrackEntryFields>(old(v)@) + self.raw_chunk1());
        }
    }

    /// Append one run of child values to a field run.
    #[verifier::rlimit(100)]
    #[verifier::spinoff_prover]
    fn push_chunk2(&self, v: &mut Vec<TrackEntryFields>)
        ensures
            models_of::<TrackEntryFields>(final(v)@) == models_of::<TrackEntryFields>(old(v)@) + self.raw_chunk2(),
    {
        self.push_track_timestamp_scale(v);
        self.push_track_offset(v);
        self.push_max_block_addition_id(v);
        self.push_block_addition_mapping(v);
        self.push_name(v);
        self.push_language(v);
        self.push_language_bcp_47(v);
        self.push_codec_id(v);
        proof {
            reveal(TrackEntry::raw_chunk2);
            assert(models_of::<TrackEntryFields>(old(v)@) + seq![FieldModel::Flt64 { id: 0x23314F, idx: self.track_timestamp_scale.index, key: self.track_timestamp_scale.id, bits: *self.track_timestamp_scale.v }] =~= models_of::<TrackEntryFields>(old(v)@) + seq![FieldModel::Flt64 { id: 0x23314F, idx: self.track_timestamp_scale.index, key: self.track_timestamp_scale.id, bits: *self.track_timestamp_scale.v }]);
            assert(models_of::<TrackEntryFields>(v@) == models_of::<TrackEntryFields>(old(v)@) + self.raw_chunk2());
        }
    }

    /// Append one run of child values to a field run.
    #[verifier::rlimit(100)]
    #[verifier::spinoff_prover]
    fn push_chunk3(&self, v: &mut Vec<TrackEntryFields>)
        ensures
            models_of::<TrackEntryFields>(final(v)@) == models_of::<TrackEntryFields>(old(v)@) + self.raw_chunk3(),
    {
        self.push_codec_private(v);
        self.push_codec_name(v);
        self.push_attachment_link(v);
        self.push_codec_settings(v);
        self.push_codec_info_url(v);
        self.push_codec_download_url(v);
        self.push_codec_decode_all(v);
        self.push_track_overlay(v);
        proof {
            reveal(TrackEntry::raw_chunk3);
            assert(models_of::<TrackEntryFields>(old(v)@) + (match &self.codec_private { Some(e) => seq![FieldModel::Bin { id: 0x63A2, idx: e.index, key: e.id, b: (*e.v)@ }], None => Seq::empty() }) =~= models_of::<TrackEntryFields>(old(v)@) + (match &self.codec_private { Some(e) => seq![FieldModel::Bin { id: 0x63A2, idx: e.index, key: e.id, b: (*e.v)@ }], None => Seq::empty() }));
            assert(models_of::<TrackEntryFields>(v@) == models_of::<TrackEntryFields>(old(v)@) + self.raw_chunk3());
        }
    }

    /// Append one run of child values to a field run.
    #[verifier::rlimit(100)]
    #[verifier::spinoff_prover]
    fn push_chunk4(&self, v: &mut Vec<TrackEntryFields>)
        ensures
            models_of::<TrackEntryFields>(final(v)@) == models_of::<TrackEntryFields>(old(v)@) + self.raw_chunk4(),
    {
        self.push_codec_delay(v);
        self.push_seek_pre_roll(v);
        self.push_track_translate(v);
        self.push_video(v);
        self.push_audio(v);
        self.push_track_operation(v);
        self.push_trick_track_uid(v);
        self.push_trick_track_segment_uid(v);
        proof {
            reveal(TrackEntry::raw_chunk4);
            assert(models_of::<TrackEntryFields>(old(v)@) + seq![FieldModel::UInt { id: 0x56AA, idx: self.codec_delay.index, key: self.codec_delay.id, v: *self.codec_delay.v }] =~= models_of::<TrackEntryFields>(old(v)@) + seq![FieldModel::UInt { id: 0x56AA, idx: self.codec_delay.index, key: self.codec_delay.id, v: *self.codec_delay.v }]);
            assert(models_of::<TrackEntryFields>(v@) == models_of::<TrackEntryFields>(old(v)@) + self.raw_chunk4());
        }
    }

    /// Append one run of child values to a field run.
    #[verifier::rlimit(100)]
    #[verifier::spinoff_prover]
    fn push_chunk5(&self, v: &mut Vec<TrackEntryFields>)
        ensures
            models_of::<TrackEntryFields>(final(v)@) == models_of::<TrackEntryFields>(old(v)@) + self.raw_chunk5(),
    {
        self.push_trick_track_flag(v);
        self.push_trick_struct_track_uid(v);
        self.push_trick_struct_track_segment_uid(v);
        self.push_content_encodings(v);
        proof {
            reveal(TrackEntry::raw_chunk5);
            assert(models_of::<TrackEntryFields>(old(v)@) + (match &self.trick_track_flag { Some(e) => seq![FieldModel::UInt { id: 0xC6, idx: e.index, key: e.id, v: *e.v }], None => Seq::empty() }) =~= models_of::<TrackEntryFields>(old(v)@) + (match &self.trick_track_flag { Some(e) => seq![FieldModel::UInt { id: 0xC6, idx: e.index, key: e.id, v: *e.v }], None => Seq::empty() }));
            assert(models_of::<TrackEntryFields>(v@) == models_of::<TrackEntryFields>(old(v)@) + self.raw_chunk5());
        }
    }

    /// A deep copy of the `track_number` slot.
    #[verifier::loop_isolation(false)]
    fn dup_track_number(&self) -> (r: Ebml<u64>)
        ensures
            seq![FieldModel::UInt { id: 0xD7, idx: r.index, key: r.id, v: *r.v }] == seq![FieldModel::UInt { id: 0xD7, idx: self.track_number.index, key: self.track_number.id, v: *self.track_number.v }],
    {
        crate::dup_ebml_copy(&self.track_number)
    }

    /// A deep copy of the `track_uid` slot.
    #[verifier::loop_isolation(false)]
    fn dup_track_uid(&self) -> (r: Ebml<u64>)
        ensures
            seq![FieldModel::UInt { id: 0x73C5, idx: r.index, key: r.id, v: *r.v }] == seq![FieldModel::UInt { id: 0x73C5, idx: self.track_uid.index, key: self.track_uid.id, v: *self.track_uid.v }],
    {
        crate::dup_ebml_copy(&self.track_uid)
    }

    /// A deep copy of the `track_type` slot.
    #[verifier::loop_isolation(false)]
    fn dup_track_type(&self) -> (r: Ebml<u64>)
        ensures
            seq![FieldModel::UInt { id: 0x83, idx: r.index, key: r.id, v: *r.v }] == seq![FieldModel::UInt { id: 0x83, idx: self.track_type.index, key: self.track_type.id, v: *self.track_type.v }],
    {
        crate::dup_ebml_copy(&self.track_type)
    }

    /// A deep copy of the `flag_enabled` slot.
    #[verifier::loop_isolation(false)]
    fn dup_flag_enabled(&self) -> (r: Ebml<u64>)
        ensures
            seq![FieldModel::UInt { id: 0xB9, idx: r.index, key: r.id, v: *r.v }] == seq![FieldModel::UInt { id: 0xB9, idx: self.flag_enabled.index, key: self.flag_enabled.id, v: *self.flag_enabled.v }],
    {
        crate::dup_ebml_copy(&self.flag_enabled)
    }

    /// A deep copy of the `flag_default` slot.
    #[verifier::loop_isolation(false)]
    fn dup_flag_default(&self) -> (r: Ebml<u64>)
        ensures
            seq![FieldModel::UInt { id: 0x88, idx: r.index, key: r.id, v: *r.v }] == seq![FieldModel::UInt { id: 0x88, idx: self.flag_default.index, key: self.flag_default.id, v: *self.flag_default.v }],
    {
        crate::dup_ebml_copy(&self.flag_default)
    }

    /// A deep copy of the `flag_forced` slot.
    #[verifier::loop_isolation(false)]
    fn dup_flag_forced(&self) -> (r: Ebml<u64>)
        ensures
            seq![FieldModel::UInt { id: 0x55AA, idx: r.index, key: r.id, v: *r.v }] == seq![FieldModel::UInt { id: 0x55AA, idx: self.flag_forced.index, key: self.flag_forced.id, v: *self.flag_forced.v }],
    {
        crate::dup_ebml_copy(&self.flag_forced)
    }

    /// A deep copy of the `flag_hearing_impaired` slot.
    #[verifier::loop_isolation(false)]
    fn dup_flag_hearing_impaired(&self) -> (r: Option<Ebml<u64>>)
        ensures
            (match &r { Some(e) => seq![FieldModel::UInt { id: 0x55AB, idx: e.index, key: e.id, v: *e.v }], None => Seq::empty() }) == (match &self.flag_hearing_impaired { Some(e) => seq![FieldModel::UInt { id: 0x55AB, idx: e.index, key: e.id, v: *e.v }], None => Seq::empty() }),
    {
        match &self.flag_hearing_impaired {
            Some(e) => Some(crate::dup_ebml_copy(e)),
            None => None,
        }
    }

    /// A deep copy of the `flag_visual_impaired` slot.
    #[verifier::loop_isolation(false)]
    fn dup_flag_visual_impaired(&self) -> (r: Option<Ebml<u64>>)
        ensures
            (match &r { Some(e) => seq![FieldModel::UInt { id: 0x55AC, idx: e.index, key: e.id, v: *e.v }], None => Seq::empty() }) == (match &self.flag_visual_impaired { Some(e) => seq![FieldModel::UInt { id: 0x55AC, idx: e.index, key: e.id, v: *e.v }], None => Seq::empty() }),
    {
        match &self.flag_visual_impaired {
            Some(e) => Some(crate::dup_ebml_copy(e)),
            None => None,
        }
    }

    /// A deep copy of the `flag_text_descriptions` slot.
    #[verifier::loop_isolation(false)]
    fn dup_flag_text_descriptions(&self) -> (r: Option<Ebml<u64>>)
        ensures
            (match &r { Some(e) => seq![FieldModel::UInt { id: 0x55AD, idx: e.index, key: e.id, v: *e.v }], None => Seq::empty() }) == (match &self.flag_text_descriptions { Some(e) => seq![FieldModel::UInt { id: 0x55AD, idx: e.index, key: e.id, v: *e.v }], None => Seq::empty() }),
    {
        match &self.flag_text_descriptions {
            Some(e) => Some(crate::dup_ebml_copy(e)),
            None => None,
        }
    }

    /// A deep copy of the `flag_original` slot.
    #[verifier::loop_isolation(false)]
    fn dup_flag_original(&self) -> (r: Option<Ebml<u64>>)
        ensures
            (match &r { Some(e) => seq![FieldModel::UInt { id: 0x55AE, idx: e.index, key: e.id, v: *e.v }], None => Seq::empty() }) == (match &self.flag_original { Some(e) => seq![FieldModel::UInt { id: 0x55AE, idx: e.index, key: e.id, v: *e.v }], None => Seq::empty() }),
    {
        match &self.flag_original {
            Some(e) => Some(crate::dup_ebml_copy(e)),
            None => None,
        }
    }

    /// A deep copy of the `flag_commentary` slot.
    #[verifier::loop_isolation(false)]
    fn dup_flag_commentary(&self) -> (r: Option<Ebml<u64>>)
        ensures
            (match &r { Some(e) => seq![FieldModel::UInt { id: 0x55AF, idx: e.index, key: e.id, v: *e.v }], None => Seq::empty() }) == (match &self.flag_commentary { Some(e) => seq![FieldModel::UInt { id: 0x55AF, idx: e.index, key: e.id, v: *e.v }], None => Seq::empty() }),
    {
        match &self.flag_commentary {
            Some(e) => Some(crate::dup_ebml_copy(e)),
            None => None,
        }
    }

    /// A deep copy of the `flag_lacing` slot.
    #[verifier::loop_isolation(false)]
    fn dup_flag_lacing(&self) -> (r: Ebml<u64>)
        ensures
            seq![FieldModel::UInt { id: 0x9C, idx: r.index, key: r.id, v: *r.v }] == seq![FieldModel::UInt { id: 0x9C, idx: self.flag_lacing.index, key: self.flag_lacing.id, v: *self.flag_lacing.v }],
    {
        crate::dup_ebml_copy(&self.flag_lacing)
    }

    /// A deep copy of the `min_cache` slot.
    #[verifier::loop_isolation(false)]
    fn dup_min_cache(&self) -> (r: Ebml<u64>)
        ensures
            seq![FieldModel::UInt { id: 0x6DE7, idx: r.index, key: r.id, v: *r.v }] == seq![FieldModel::UInt { id: 0x6DE7, idx: self.min_cache.index, key: self.min_cache.id, v: *self.min_cache.v }],
    {
        crate::dup_ebml_copy(&self.min_cache)
    }

    /// A deep copy of the `max_cache` slot.
    #[verifier::loop_isolation(false)]
    fn dup_max_cache(&self) -> (r: Option<Ebml<u64>>)
        ensures
            (match &r { Some(e) => seq![FieldModel::UInt { id: 0x6DF8, idx: e.index, key: e.id, v: *e.v }], None => Seq::empty() }) == (match &self.max_cache { Some(e) => seq![FieldModel::UInt { id: 0x6DF8, idx: e.index, key: e.id, v: *e.v }], None => Seq::empty() }),
    {
        match &self.max_cache {
            Some(e) => Some(crate::dup_ebml_copy(e)),
            None => None,
        }
    }

    /// A deep copy of the `default_duration` slot.
    #[verifier::loop_isolation(false)]
    fn dup_default_duration(&self) -> (r: Option<Ebml<u64>>)
        ensures
            (match &r { Some(e) => seq![FieldModel::UInt { id: 0x23E383, idx: e.index, key: e.id, v: *e.v }], None => Seq::empty() }) == (match &self.default_duration { Some(e) => seq![FieldModel::UInt { id: 0x23E383, idx: e.index, key: e.id, v: *e.v }], None => Seq::empty() }),
    {
        match &self.default_duration {
            Some(e) => Some(crate::dup_ebml_copy(e)),
            None => None,
        }
    }

    /// A deep copy of the `default_decoded_field_duration` slot.
    #[verifier::loop_isolation(false)]
    fn dup_default_decoded_field_duration(&self) -> (r: Option<Ebml<u64>>)
        ensures
            (match &r { Some(e) => seq![FieldModel::UInt { id: 0x234E7A, idx: e.index, key: e.id, v: *e.v }], None => Seq::empty() }) == (match &self.default_decoded_field_duration { Some(e) => seq![FieldModel::UInt { id: 0x234E7A, idx: e.index, key: e.id, v: *e.v }], None => Seq::empty() }),
    {
        match &self.default_decoded_field_duration {
            Some(e) => Some(crate::dup_ebml_copy(e)),
            None => None,
        }
    }

    /// A deep copy of the `track_timestamp_scale` slot.
    #[verifier::loop_isolation(false)]
    fn dup_track_timestamp_scale(&self) -> (r: Ebml<u64>)
        ensures
            seq![FieldModel::Flt64 { id: 0x23314F, idx: r.index, key: r.id, bits: *r.v }] == seq![FieldModel::Flt64 { id: 0x23314F, idx: self.track_timestamp_scale.index, key: self.track_timestamp_scale.id, bits: *self.track_timestamp_scale.v }],
    {
        crate::dup_ebml_copy(&self.track_timestamp_scale)
    }

    /// A deep copy of the `track_offset` slot.
    #[verifier::loop_isolation(false)]
    fn dup_track_offset(&self) -> (r: Option<Ebml<i64>>)
        ensures
            (match &r { Some(e) => seq![FieldModel::SInt { id: 0x537F, idx: e.index, key: e.id, v: *e.v }], None => Seq::empty() }) == (match &self.track_offset { Some(e) => seq![FieldModel::SInt { id: 0x537F, idx: e.index, key: e.id, v: *e.v }], None => Seq::empty() }),
    {
        match &self.track_offset {
            Some(e) => Some(crate::dup_ebml_copy(e)),
            None => None,
        }
    }

    /// A deep copy of the `max_block_addition_id` slot.
    #[verifier::loop_isolation(false)]
    fn dup_max_block_addition_id(&self) -> (r: Ebml<u64>)
        ensures
            seq![FieldModel::UInt { id: 0x55EE, idx: r.index, key: r.id, v: *r.v }] == seq![FieldModel::UInt { id: 0x55EE, idx: self.max_block_addition_id.index, key: self.max_block_addition_id.id, v: *self.max_block_addition_id.v }],
    {
        crate::dup_ebml_copy(&self.max_block_addition_id)
    }

    /// A deep copy of the `block_addition_mapping` slot.
    #[verifier::loop_isolation(false)]
    fn dup_block_addition_mapping(&self) -> (r: Vec<Ebml<BlockAdditionMapping>>)
        ensures
            trackentry_block_addition_mapping_models(r@) == trackentry_block_addition_mapping_models(self.block_addition_mapping@),
    {
        let mut out: Vec<Ebml<BlockAdditionMapping>> = Vec::new();
        let mut i: usize = 0;
        while i < self.block_addition_mapping.len()
            invariant
                i <= self.block_addition_mapping@.len(),
                trackentry_block_addition_mapping_models(out@) == trackentry_block_addition_mapping_models(self.block_addition_mapping@.take(i as int)),
            decreases self.block_addition_mapping@.len() - i,
        {
            let e = &self.block_addition_mapping[i];
            let d = (&*e.v).duplicate();
            proof {
                reveal(BlockAdditionMapping::model);
                assert(d.model() == (*e.v).model());
            }
            let ghost prevo = out@;
            out.push(Ebml { index: e.index, v: Box::new(d), id: e.id });
            proof {
                assert(self.block_addition_mapping@.take(i + 1) =~= self.block_addition_mapping@.take(i as int).push(self.block_addition_mapping@[i as int]));
                assert(out@.drop_last() =~= prevo);
                assert(self.block_addition_mapping@.take(i + 1).drop_last() =~= self.block_addition_mapping@.take(i as int));
                assert(FieldModel::Node { id: 0x41E4, idx: (out@.last()).index, key: (out@.last()).id, children: (*(out@.last()).v).model() } == FieldModel::Node { id: 0x41E4, idx: (self.block_addition_mapping@[i as int]).index, key: (self.block_addition_mapping@[i as int]).id, children: (*(self.block_addition_mapping@[i as int]).v).model() });
                assert(trackentry_block_addition_mapping_models(out@) =~= trackentry_block_addition_mapping_models(prevo).push(FieldModel::Node { id: 0x41E4, idx: (out@.last()).index, key: (out@.last()).id, children: (*(out@.last()).v).model() }));
                assert(trackentry_block_addition_mapping_models(self.block_addition_mapping@.take(i + 1)) =~= trackentry_block_addition_mapping_models(self.block_addition_mapping@.take(i as int)).push(FieldModel::Node { id: 0x41E4, idx: (self.block_addition_mapping@[i as int]).index, key: (self.block_addition_mapping@[i as int]).id, children: (*(self.block_addition_mapping@[i as int]).v).model() }));
            }
            i += 1;
        }
        proof {
            assert(self.block_addition_mapping@.take(self.block_addition_mapping@.len() as int) =~= self.block_addition_mapping@);
        }
        out
    }

    /// A deep copy of the `name` slot.
    #[verifier::loop_isolation(false)]
    fn dup_name(&self) -> (r: Option<Ebml<String>>)
        ensures
            (match &r { Some(e) => seq![FieldModel::Text { id: 0x536E, idx: e.index, key: e.id, s: (*e.v)@ }], None => Seq::empty() }) == (match &self.name { Some(e) => seq![FieldModel::Text { id: 0x536E, idx: e.index, key: e.id, s: (*e.v)@ }], None => Seq::empty() }),
    {
        match &self.name {
            Some(e) => Some(crate::dup_ebml_string(e)),
            None => None,
        }
    }

    /// A deep copy of the `language` slot.
    #[verifier::loop_isolation(false)]
    fn dup_language(&self) -> (r: Ebml<String>)
        ensures
            seq![FieldModel::Text { id: 0x22B59C, idx: r.index, key: r.id, s: (*r.v)@ }] == seq![FieldModel::Text { id: 0x22B59C, idx: self.language.index, key: self.language.id, s: (*self.language.v)@ }],
    {
        crate::dup_ebml_string(&self.language)
    }

    /// A deep copy of the `language_bcp_47` slot.
    #[verifier::loop_isolation(false)]
    fn dup_language_bcp_47(&self) -> (r: Option<Ebml<String>>)
        ensures
            (match &r { Some(e) => seq![FieldModel::Text { id: 0x22B59D, idx: e.index, key: e.id, s: (*e.v)@ }], None => Seq::empty() }) == (match &self.language_bcp_47 { Some(e) => seq![FieldModel::Text { id: 0x22B59D, idx: e.index, key: e.id, s: (*e.v)@ }], None => Seq::empty() }),
    {
        match &self.language_bcp_47 {
            Some(e) => Some(crate::dup_ebml_string(e)),
            None => None,
        }
    }

    /// A deep copy of the `codec_id` slot.
    #[verifier::loop_isolation(false)]
    fn dup_codec_id(&self) -> (r: Ebml<String>)
        ensures
            seq![FieldModel::Text { id: 0x86, idx: r.index, key: r.id, s: (*r.v)@ }] == seq![FieldModel::Text { id: 0x86, idx: self.codec_id.index, key: self.codec_id.id, s: (*self.codec_id.v)@ }],
    {
        crate::dup_ebml_string(&self.codec_id)
    }

    /// A deep copy of the `codec_private` slot.
    #[verifier::loop_isolation(false)]
    fn dup_codec_private(&self) -> (r: Option<Ebml<Vec<u8>>>)
        ensures
            (match &r { Some(e) => seq![FieldModel::Bin { id: 0x63A2, idx: e.index, key: e.id, b: (*e.v)@ }], None => Seq::empty() }) == (match &self.codec_private { Some(e) => seq![FieldModel::Bin { id: 0x63A2, idx: e.index, key: e.id, b: (*e.v)@ }], None => Seq::empty() }),
    {
        match &self.codec_private {
            Some(e) => Some(crate::dup_ebml_bytes(e)),
            None => None,
        }
    }

    /// A deep copy of the `codec_name` slot.
    #[verifier::loop_isolation(false)]
    fn dup_codec_name(&self) -> (r: Option<Ebml<String>>)
        ensures
            (match &r { Some(e) => seq![FieldModel::Text { id: 0x258688, idx: e.index, key: e.id, s: (*e.v)@ }], None => Seq::empty() }) == (match &self.codec_name { Some(e) => seq![FieldModel::Text { id: 0x258688, idx: e.index, key: e.id, s: (*e.v)@ }], None => Seq::empty() }),
    {
        match &self.codec_name {
            Some(e) => Some(crate::dup_ebml_string(e)),
            None => None,
        }
    }

    /// A deep copy of the `attachment_link` slot.
    #[verifier::loop_isolation(false)]
    fn dup_attachment_link(&self) -> (r: Option<Ebml<u64>>)
        ensures
            (match &r { Some(e) => seq![FieldModel::UInt { id: 0x7446, idx: e.index, key: e.id, v: *e.v }], None => Seq::empty() }) == (match &self.attachment_link { Some(e) => seq![FieldModel::UInt { id: 0x7446, idx: e.index, key: e.id, v: *e.v }], None => Seq::empty() }),
    {
        match &self.attachment_link {
            Some(e) => Some(crate::dup_ebml_copy(e)),
            None => None,
        }
    }

    /// A deep copy of the `codec_settings` slot.
    #[verifier::loop_isolation(false)]
    fn dup_codec_settings(&self) -> (r: Option<Ebml<String>>)
        ensures
            (match &r { Some(e) => seq![FieldModel::Text { id: 0x3A9697, idx: e.index, key: e.id, s: (*e.v)@ }], None => Seq::empty() }) == (match &self.codec_settings { Some(e) => seq![FieldModel::Text { id: 0x3A9697, idx: e.index, key: e.id, s: (*e.v)@ }], None => Seq::empty() }),
    {
        match &self.codec_settings {
            Some(e) => Some(crate::dup_ebml_string(e)),
            None => None,
        }
    }

    /// A deep copy of the `codec_info_url` slot.
    #[verifier::loop_isolation(false)]
    fn dup_codec_info_url(&self) -> (r: Vec<Ebml<String>>)
        ensures
            trackentry_codec_info_url_models(r@) == trackentry_codec_info_url_models(self.codec_info_url@),
    {
        let mut out: Vec<Ebml<String>> = Vec::new();
        let mut i: usize = 0;
        while i < self.codec_info_url.len()
            invariant
                i <= self.codec_info_url@.len(),
                trackentry_codec_info_url_models(out@) == trackentry_codec_info_url_models(self.codec_info_url@.take(i as int)),
            decreases self.codec_info_url@.len() - i,
        {
            let e = &self.codec_info_url[i];
            let ghost prevo = out@;
            out.push(crate::dup_ebml_string(e));
            proof {
                assert(self.codec_info_url@.take(i + 1) =~= self.codec_info_url@.take(i as int).push(self.codec_info_url@[i as int]));
                assert(out@.drop_last() =~= prevo);
                assert(self.codec_info_url@.take(i + 1).drop_last() =~= self.codec_info_url@.take(i as int));
                assert(FieldModel::Text { id: 0x3B4040, idx: (out@.last()).index, key: (out@.last()).id, s: (*(out@.last()).v)@ } == FieldModel::Text { id: 0x3B4040, idx: (self.codec_info_url@[i as int]).index, key: (self.codec_info_url@[i as int]).id, s: (*(self.codec_info_url@[i as int]).v)@ });
                assert(trackentry_codec_info_url_models(out@) =~= trackentry_codec_info_url_models(prevo).push(FieldModel::Text { id: 0x3B4040, idx: (out@.last()).index, key: (out@.last()).id, s: (*(out@.last()).v)@ }));
                assert(trackentry_codec_info_url_models(self.codec_info_url@.take(i + 1)) =~= trackentry_codec_info_url_models(self.codec_info_url@.take(i as int)).push(FieldModel::Text { id: 0x3B4040, idx: (self.codec_info_url@[i as int]).index, key: (self.codec_info_url@[i as int]).id, s: (*(self.codec_info_url@[i as int]).v)@ }));
            }
            i += 1;
        }
        proof {
            assert(self.codec_info_url@.take(self.codec_info_url@.len() as int) =~= self.codec_info_url@);
        }
        out
    }

    /// A deep copy of the `codec_download_url` slot.
    #[verifier::loop_isolation(false)]
    fn dup_codec_download_url(&self) -> (r: Vec<Ebml<String>>)
        ensures
            trackentry_codec_download_url_models(r@) == trackentry_codec_download_url_models(self.codec_download_url@),
    {
        let mut out: Vec<Ebml<String>> = Vec::new();
        let mut i: usize = 0;
        while i < self.codec_download_url.len()
            invariant
                i <= self.codec_download_url@.len(),
                trackentry_codec_download_url_models(out@) == trackentry_codec_download_url_models(self.codec_download_url@.take(i as int)),
            decreases self.codec_download_url@.len() - i,
        {
            let e = &self.codec_download_url[i];
            let ghost prevo = out@;
            out.push(crate::dup_ebml_string(e));
            proof {
                assert(self.codec_download_url@.take(i + 1) =~= self.codec_download_url@.take(i as int).push(self.codec_download_url@[i as int]));
                assert(out@.drop_last() =~= prevo);
                assert(self.codec_download_url@.take(i + 1).drop_last() =~= self.codec_download_url@.take(i as int));
                assert(FieldModel::Text { id: 0x26B240, idx: (out@.last()).index, key: (out@.last()).id, s: (*(out@.last()).v)@ } == FieldModel::Text { id: 0x26B240, idx: (self.codec_download_url@[i as int]).index, key: (self.codec_download_url@[i as int]).id, s: (*(self.codec_download_url@[i as int]).v)@ });
                assert(trackentry_codec_download_url_models(out@) =~= trackentry_codec_download_url_models(prevo).push(FieldModel::Text { id: 0x26B240, idx: (out@.last()).index, key: (out@.last()).id, s: (*(out@.last()).v)@ }));
                assert(trackentry_codec_download_url_models(self.codec_download_url@.take(i + 1)) =~= trackentry_codec_download_url_models(self.codec_download_url@.take(i as int)).push(FieldModel::Text { id: 0x26B240, idx: (self.codec_download_url@[i as int]).index, key: (self.codec_download_url@[i as int]).id, s: (*(self.codec_download_url@[i as int]).v)@ }));
            }
            i += 1;
        }
        proof {
            assert(self.codec_download_url@.take(self.codec_download_url@.len() as int) =~= self.codec_download_url@);
        }
        out
    }

    /// A deep copy of the `codec_decode_all` slot.
    #[verifier::loop_isolation(false)]
    fn dup_codec_decode_all(&self) -> (r: Ebml<u64>)
        ensures
            seq![FieldModel::UInt { id: 0xAA, idx: r.index, key: r.id, v: *r.v }] == seq![FieldModel::UInt { id: 0xAA, idx: self.codec_decode_all.index, key: self.codec_decode_all.id, v: *self.codec_decode_all.v }],
    {
        crate::dup_ebml_copy(&self.codec_decode_all)
    }

    /// A deep copy of the `track_overlay` slot.
    #[verifier::loop_isolation(false)]
    fn dup_track_overlay(&self) -> (r: Vec<Ebml<u64>>)
        ensures
            trackentry_track_overlay_models(r@) == trackentry_track_overlay_models(self.track_overlay@),
    {
        let mut out: Vec<Ebml<u64>> = Vec::new();
        let mut i: usize = 0;
        while i < self.track_overlay.len()
            invariant
                i <= self.track_overlay@.len(),
                trackentry_track_overlay_models(out@) == trackentry_track_overlay_models(self.track_overlay@.take(i as int)),
            decreases self.track_overlay@.len() - i,
        {
            let e = &self.track_overlay[i];
            let ghost prevo = out@;
            out.push(crate::dup_ebml_copy(e));
            proof {
                assert(self.track_overlay@.take(i + 1) =~= self.track_overlay@.take(i as int).push(self.track_overlay@[i as int]));
                assert(out@.drop_last() =~= prevo);
                assert(self.track_overlay@.take(i + 1).drop_last() =~= self.track_overlay@.take(i as int));
                assert(FieldModel::UInt { id: 0x6FAB, idx: (out@.last()).index, key: (out@.last()).id, v: *(out@.last()).v } == FieldModel::UInt { id: 0x6FAB, idx: (self.track_overlay@[i as int]).index, key: (self.track_overlay@[i as int]).id, v: *(self.track_overlay@[i as int]).v });
                assert(trackentry_track_overlay_models(out@) =~= trackentry_track_overlay_models(prevo).push(FieldModel::UInt { id: 0x6FAB, idx: (out@.last()).index, key: (out@.last()).id, v: *(out@.last()).v }));
                assert(trackentry_track_overlay_models(self.track_overlay@.take(i + 1)) =~= trackentry_track_overlay_models(self.track_overlay@.take(i as int)).push(FieldModel::UInt { id: 0x6FAB, idx: (self.track_overlay@[i as int]).index, key: (self.track_overlay@[i as int]).id, v: *(self.track_overlay@[i as int]).v }));
            }
            i += 1;
        }
        proof {
            assert(self.track_overlay@.take(self.track_overlay@.len() as int) =~= self.track_overlay@);
        }
        out
    }

    /// A deep copy of the `codec_delay` slot.
    #[verifier::loop_isolation(false)]
    fn dup_codec_delay(&self) -> (r: Ebml<u64>)
        ensures
            seq![FieldModel::UInt { id: 0x56AA, idx: r.index, key: r.id, v: *r.v }] == seq![FieldModel::UInt { id: 0x56AA, idx: self.codec_delay.index, key: self.codec_delay.id, v: *self.codec_delay.v }],
    {
        crate::dup_ebml_copy(&self.codec_delay)
    }

    /// A deep copy of the `seek_pre_roll` slot.
    #[verifier::loop_isolation(false)]
    fn dup_seek_pre_roll(&self) -> (r: Ebml<u64>)
        ensures
            seq![FieldModel::UInt { id: 0x56BB, idx: r.index, key: r.id, v: *r.v }] == seq![FieldModel::UInt { id: 0x56BB, idx: self.seek_pre_roll.index, key: self.seek_pre_roll.id, v: *self.seek_pre_roll.v }],
    {
        crate::dup_ebml_copy(&self.seek_pre_roll)
    }

    /// A deep copy of the `track_translate` slot.
    #[verifier::loop_isolation(false)]
    fn dup_track_translate(&self) -> (r: Vec<Ebml<TrackTranslate>>)
        ensures
            trackentry_track_translate_models(r@) == trackentry_track_translate_models(self.track_translate@),
    {
        let mut out: Vec<Ebml<TrackTranslate>> = Vec::new();
        let mut i: usize = 0;
        while i < self.track_translate.len()
            invariant
                i <= self.track_translate@.len(),
                trackentry_track_translate_models(out@) == trackentry_track_translate_models(self.track_translate@.take(i as int)),
            decreases self.track_translate@.len() - i,
        {
            let e = &self.track_translate[i];
            let d = (&*e.v).duplicate();
            proof {
                reveal(TrackTranslate::model);
                assert(d.model() == (*e.v).model());
            }
            let ghost prevo = out@;
            out.push(Ebml { index: e.index, v: Box::new(d), id: e.id });
            proof {
                assert(self.track_translate@.take(i + 1) =~= self.track_translate@.take(i as int).push(self.track_translate@[i as int]));
                assert(out@.drop_last() =~= prevo);
                assert(self.track_translate@.take(i + 1).drop_last() =~= self.track_translate@.take(i as int));
                assert(FieldModel::Node { id: 0x6624, idx: (out@.last()).index, key: (out@.last()).id, children: (*(out@.last()).v).model() } == FieldModel::Node { id: 0x6624, idx: (self.track_translate@[i as int]).index, key: (self.track_translate@[i as int]).id, children: (*(self.track_translate@[i as int]).v).model() });
                assert(trackentry_track_translate_models(out@) =~= trackentry_track_translate_models(prevo).push(FieldModel::Node { id: 0x6624, idx: (out@.last()).index, key: (out@.last()).id, children: (*(out@.last()).v).model() }));
                assert(trackentry_track_translate_models(self.track_translate@.take(i + 1)) =~= trackentry_track_translate_models(self.track_translate@.take(i as int)).push(FieldModel::Node { id: 0x6624, idx: (self.track_translate@[i as int]).index, key: (self.track_translate@[i as int]).id, children: (*(self.track_translate@[i as int]).v).model() }));
            }
            i += 1;
        }
        proof {
            assert(self.track_translate@.take(self.track_translate@.len() as int) =~= self.track_translate@);
        }
        out
    }

    /// A deep copy of the `video` slot.
    #[verifier::loop_isolation(false)]
    fn dup_video(&self) -> (r: Option<Ebml<Video>>)
        ensures
            (match &r { Some(e) => seq![FieldModel::Node { id: 0xE0, idx: e.index, key: e.id, children: (*e.v).model() }], None => Seq::empty() }) == (match &self.video { Some(e) => seq![FieldModel::Node { id: 0xE0, idx: e.index, key: e.id, children: (*e.v).model() }], None => Seq::empty() }),
    {
        match &self.video {
            Some(e) => {
                let d = (&*e.v).duplicate();
                proof {
                    reveal(Video::model);
                    assert(d.model() == (*e.v).model());
                }
                Some(Ebml { index: e.index, v: Box::new(d), id: e.id })
            },
            None => None,
        }
    }

    /// A deep copy of the `audio` slot.
    #[verifier::loop_isolation(false)]
    fn dup_audio(&self) -> (r: Option<Ebml<Audio>>)
        ensures
            (match &r { Some(e) => seq![FieldModel::Node { id: 0xE1, idx: e.index, key: e.id, children: (*e.v).model() }], None => Seq::empty() }) == (match &self.audio { Some(e) => seq![FieldModel::Node { id: 0xE1, idx: e.index, key: e.id, children: (*e.v).model() }], None => Seq::empty() }),
    {
        match &self.audio {
            Some(e) => {
                let d = (&*e.v).duplicate();
                proof {
                    reveal(Audio::model);
                    assert(d.model() == (*e.v).model());
                }
                Some(Ebml { index: e.index, v: Box::new(d), id: e.id })
            },
            None => None,
        }
    }

    /// A deep copy of the `track_operation` slot.
    #[verifier::loop_isolation(false)]
    fn dup_track_operation(&self) -> (r: Option<Ebml<TrackOperation>>)
        ensures
            (match &r { Some(e) => seq![FieldModel::Node { id: 0xE2, idx: e.index, key: e.id, children: (*e.v).model() }], None => Seq::empty() }) == (match &self.track_operation { Some(e) => seq![FieldModel::Node { id: 0xE2, idx: e.index, key: e.id, children: (*e.v).model() }], None => Seq::empty() }),
    {
        match &self.track_operation {
            Some(e) => {
                let d = (&*e.v).duplicate();
                proof {
                    reveal(TrackOperation::model);
                    assert(d.model() == (*e.v).model());
                }
                Some(Ebml { index: e.index, v: Box::new(d), id: e.id })
            },
            None => None,
        }
    }

    /// A deep copy of the `trick_track_uid` slot.
    #[verifier::loop_isolation(false)]
    fn dup_trick_track_uid(&self) -> (r: Option<Ebml<u64>>)
        ensures
            (match &r { Some(e) => seq![FieldModel::UInt { id: 0xC0, idx: e.index, key: e.id, v: *e.v }], None => Seq::empty() }) == (match &self.trick_track_uid { Some(e) => seq![FieldModel::UInt { id: 0xC0, idx: e.index, key: e.id, v: *e.v }], None => Seq::empty() }),
    {
        match &self.trick_track_uid {
            Some(e) => Some(crate::dup_ebml_copy(e)),
            None => None,
        }
    }

    /// A deep copy of the `trick_track_segment_uid` slot.
    #[verifier::loop_isolation(false)]
    fn dup_trick_track_segment_uid(&self) -> (r: Option<Ebml<Vec<u8>>>)
        ensures
            (match &r { Some(e) => seq![FieldModel::Bin { id: 0xC1, idx: e.index, key: e.id, b: (*e.v)@ }], None => Seq::empty() }) == (match &self.trick_track_segment_uid { Some(e) => seq![FieldModel::Bin { id: 0xC1, idx: e.index, key: e.id, b: (*e.v)@ }], None => Seq::empty() }),
    {
        match &self.trick_track_segment_uid {
            Some(e) => Some(crate::dup_ebml_bytes(e)),
            None => None,
        }
    }

    /// A deep copy of the `trick_track_flag` slot.
    #[verifier::loop_isolation(false)]
    fn dup_trick_track_flag(&self) -> (r: Option<Ebml<u64>>)
        ensures
            (match &r { Some(e) => seq![FieldModel::UInt { id: 0xC6, idx: e.index, key: e.id, v: *e.v }], None => Seq::empty() }) == (match &self.trick_track_flag { Some(e) => seq![FieldModel::UInt { id: 0xC6, idx: e.index, key: e.id, v: *e.v }], None => Seq::empty() }),
    {
        match &self.trick_track_flag {
            Some(e) => Some(crate::dup_ebml_copy(e)),
            None => None,
        }
    }

    /// A deep copy of the `trick_struct_track_uid` slot.
    #[verifier::loop_isolation(false)]
    fn dup_trick_struct_track_uid(&self) -> (r: Option<Ebml<u64>>)
        ensures
            (match &r { Some(e) => seq![FieldModel::UInt { id: 0xC7, idx: e.index, key: e.id, v: *e.v }], None => Seq::empty() }) == (match &self.trick_struct_track_uid { Some(e) => seq![FieldModel::UInt { id: 0xC7, idx: e.index, key: e.id, v: *e.v }], None => Seq::empty() }),
    {
        match &self.trick_struct_track_uid {
            Some(e) => Some(crate::dup_ebml_copy(e)),
            None => None,
        }
    }

    /// A deep copy of the `trick_struct_track_segment_uid` slot.
    #[verifier::loop_isolation(false)]
    fn dup_trick_struct_track_segment_uid(&self) -> (r: Option<Ebml<Vec<u8>>>)
        ensures
            (match &r { Some(e) => seq![FieldModel::Bin { id: 0xC4, idx: e.index, key: e.id, b: (*e.v)@ }], None => Seq::empty() }) == (match &self.trick_struct_track_segment_uid { Some(e) => seq![FieldModel::Bin { id: 0xC4, idx: e.index, key: e.id, b: (*e.v)@ }], None => Seq::empty() }),
    {
        match &self.trick_struct_track_segment_uid {
            Some(e) => Some(crate::dup_ebml_bytes(e)),
            None => None,
        }
    }

    /// A deep copy of the `content_encodings` slot.
    #[verifier::loop_isolation(false)]
    fn dup_content_encodings(&self) -> (r: Option<Ebml<ContentEncodings>>)
        ensures
            (match &r { Some(e) => seq![FieldModel::Node { id: 0x6D80, idx: e.index, key: e.id, children: (*e.v).model() }], None => Seq::empty() }) == (match &self.content_encodings { Some(e) => seq![FieldModel::Node { id: 0x6D80, idx: e.index, key: e.id, children: (*e.v).model() }], None => Seq::empty() }),
    {
        match &self.content_encodings {
            Some(e) => {
                let d = (&*e.v).duplicate();
                proof {
                    reveal(ContentEncodings::model);
                    assert(d.model() == (*e.v).model());
                }
                Some(Ebml { index: e.index, v: Box::new(d), id: e.id })
            },
            None => None,
        }
    }

    /// A deep copy with the same children, positions, and keys.
    #[verifier::rlimit(100)]
    #[verifier::spinoff_prover]
    pub fn duplicate(&self) -> (r: Self)
        ensures
            r.raw_model() == self.raw_model(),
            r.size == self.size,
    {
        let r = TrackEntry {
            size: self.size,
            track_number: self.dup_track_number(),
            track_uid: self.dup_track_uid(),
            track_type: self.dup_track_type(),
            flag_enabled: self.dup_flag_enabled(),
            flag_default: self.dup_flag_default(),
            flag_forced: self.dup_flag_forced(),
            flag_hearing_impaired: self.dup_flag_hearing_impaired(),
            flag_visual_impaired: self.dup_flag_visual_impaired(),
            flag_text_descriptions: self.dup_flag_text_descriptions(),
            flag_original: self.dup_flag_original(),
            flag_commentary: self.dup_flag_commentary(),
            flag_lacing: self.dup_flag_lacing(),
            min_cache: self.dup_min_cache(),
            max_cache: self.dup_max_cache(),
            default_duration: self.dup_default_duration(),
            default_decoded_field_duration: self.dup_default_decoded_field_duration(),
            track_timestamp_scale: self.dup_track_timestamp_scale(),
            track_offset: self.dup_track_offset(),
            max_block_addition_id: self.dup_max_block_addition_id(),
            block_addition_mapping: self.dup_block_addition_mapping(),
            name: self.dup_name(),
            language: self.dup_language(),
            language_bcp_47: self.dup_language_bcp_47(),
            codec_id: self.dup_codec_id(),
            codec_private: self.dup_codec_private(),
            codec_name: self.dup_codec_name(),
            attachment_link: self.dup_attachment_link(),
            codec_settings: self.dup_codec_settings(),
            codec_info_url: self.dup_codec_info_url(),
            codec_download_url: self.dup_codec_download_url(),
            codec_decode_all: self.dup_codec_decode_all(),
            track_overlay: self.dup_track_overlay(),
            codec_delay: self.dup_codec_delay(),
            seek_pre_roll: self.dup_seek_pre_roll(),
            track_translate: self.dup_track_translate(),
            video: self.dup_video(),
            audio: self.dup_audio(),
            track_operation: self.dup_track_operation(),
            trick_track_uid: self.dup_trick_track_uid(),
            trick_track_segment_uid: self.dup_trick_track_segment_uid(),
            trick_track_flag: self.dup_trick_track_flag(),
            trick_struct_track_uid: self.dup_trick_struct_track_uid(),
            trick_struct_track_segment_uid: self.dup_trick_struct_track_segment_uid(),
            content_encodings: self.dup_content_encodings(),
        };
        proof {
            assert(r.raw_chunk0() == self.raw_chunk0()) by {
                reveal(TrackEntry::raw_chunk0);
            }
            assert(r.raw_chunk1() == self.raw_chunk1()) by {
                reveal(TrackEntry::raw_chunk1);
            }
            assert(r.raw_chunk2() == self.raw_chunk2()) by {
                reveal(TrackEntry::raw_chunk2);
            }
            assert(r.raw_chunk3() == self.raw_chunk3()) by {
                reveal(TrackEntry::raw_chunk3);
            }
            assert(r.raw_chunk4() == self.raw_chunk4()) by {
                reveal(TrackEntry::raw_chunk4);
            }
            assert(r.raw_chunk5() == self.raw_chunk5()) by {
                reveal(TrackEntry::raw_chunk5);
            }
            reveal(TrackEntry::raw_model);
            assert(r.raw_model() == self.raw_model());
        }
        r
    }
}

impl TrackEntry {
    /// Serialise the whole element: body to a scratch buffer first, then
    /// the header with the now-known length, then the body.
    pub fn write_blocking(&self, w: &mut Vec<u8>) -> (r: Result<usize, MatroskaError>)
        ensures
            r is Ok <==> body_ok_rec(self.model()) && cat_bytes(self.model()).len() < 0xFFFFFFFFFFFFFF,
            r is Ok ==> final(w)@ == old(w)@ + node_frame_bytes(0xAE, cat_bytes(self.model()))
                && r->Ok_0 == node_frame_bytes(0xAE, cat_bytes(self.model())).len(),
            r is Err ==> final(w)@ == old(w)@ && r->Err_0 is InvalidVarIntMoreThanVintMax,
    {
        let mut buf: Vec<u8> = Vec::new();
        match self.write_body_blocking(&mut buf) {
            Ok(_) => {},
            Err(e) => {
                return Err(e);
            },
        }
        let start = w.len();
        match crate::io::write_element_id_size(w, 0xAE, buf.len() as u64) {
            Ok(_) => {},
            Err(e) => {
                return Err(e);
            },
        }
        w.append(&mut buf);
        Ok(w.len() - start)
    }

    /// Write this element's header with the given body size.
    pub fn write_header_blocking(&self, w: &mut Vec<u8>, size: u64) -> (r: Result<usize, MatroskaError>)
        ensures
            r is Ok <==> crate::io::size_encodable(size),
            r is Ok ==> final(w)@ == old(w)@ + crate::io::header_bytes(0xAE, size)
                && r->Ok_0 == crate::io::header_bytes(0xAE, size).len(),
            r is Err ==> final(w)@ == old(w)@ && r->Err_0 is InvalidVarIntMoreThanVintMax,
    {
        crate::io::write_element_id_size(w, 0xAE, size)
    }

    /// Write the body: every present child, in emission order.
    #[verifier::loop_isolation(false)]
    #[verifier::rlimit(60)]
    #[verifier::spinoff_prover]
    pub fn write_body_blocking(&self, w: &mut Vec<u8>) -> (r: Result<usize, MatroskaError>)
        ensures
            r is Ok <==> body_ok_rec(self.model()),
            r is Ok ==> final(w)@ == old(w)@ + cat_bytes(self.model())
                && r->Ok_0 == cat_bytes(self.model()).len(),
            r is Err ==> r->Err_0 is InvalidVarIntMoreThanVintMax,
    {
        let fields = self.elements();
        let start = w.len();
        let ghost ms = self.model();
        let mut i: usize = 0;
        while i < fields.len()
            invariant
                i <= fields@.len(),
                models_of::<TrackEntryFields>(fields@) == ms,
                w@ == old(w)@ + cat_bytes(ms.take(i as int)),
                body_ok_rec(ms.take(i as int)),
            decreases fields@.len() - i,
        {
            proof {
                assert(models_of::<TrackEntryFields>(fields@)[i as int] == ms[i as int]);
            }
            match fields[i].write_el(w) {
                Ok(_) => {},
                Err(e) => {
                    proof {
                        lemma_body_ok_forall(ms);
                    }
                    return Err(e);
                },
            }
            proof {
                assert(ms.take(i + 1) =~= ms.take(i as int).push(ms[i as int]));
                lemma_cat_snoc(ms.take(i as int), ms[i as int]);
            }
            i += 1;
        }
        proof {
            assert(ms.take(ms.len() as int) =~= ms);
            lemma_body_ok_forall(ms);
        }
        Ok(w.len() - start)
    }
}

/// One present child of a `TrackEntry`, paired with its value.
#[derive(Debug)]
pub enum TrackEntryFields {
    TrackNumber(Ebml<u64>),
    TrackUid(Ebml<u64>),
    TrackType(Ebml<u64>),
    FlagEnabled(Ebml<u64>),
    FlagDefault(Ebml<u64>),
    FlagForced(Ebml<u64>),
    FlagHearingImpaired(Ebml<u64>),
    FlagVisualImpaired(Ebml<u64>),
    FlagTextDescriptions(Ebml<u64>),
    FlagOriginal(Ebml<u64>),
    FlagCommentary(Ebml<u64>),
    FlagLacing(Ebml<u64>),
    MinCache(Ebml<u64>),
    MaxCache(Ebml<u64>),
    DefaultDuration(Ebml<u64>),
    DefaultDecodedFieldDuration(Ebml<u64>),
    TrackTimestampScale(Ebml<u64>),
    TrackOffset(Ebml<i64>),
    MaxBlockAdditionId(Ebml<u64>),
    BlockAdditionMapping(Ebml<BlockAdditionMapping>),
    Name(Ebml<String>),
    Language(Ebml<String>),
    LanguageBcp47(Ebml<String>),
    CodecId(Ebml<String>),
    CodecPrivate(Ebml<Vec<u8>>),
    CodecName(Ebml<String>),
    AttachmentLink(Ebml<u64>),
    CodecSettings(Ebml<String>),
    CodecInfoUrl(Ebml<String>),
    CodecDownloadUrl(Ebml<String>),
    CodecDecodeAll(Ebml<u64>),
    TrackOverlay(Ebml<u64>),
    CodecDelay(Ebml<u64>),
    SeekPreRoll(Ebml<u64>),
    TrackTranslate(Ebml<TrackTranslate>),
    Video(Ebml<Video>),
    Audio(Ebml<Audio>),
    TrackOperation(Ebml<TrackOperation>),
    TrickTrackUid(Ebml<u64>),
    TrickTrackSegmentUid(Ebml<Vec<u8>>),
    TrickTrackFlag(Ebml<u64>),
    TrickStructTrackUid(Ebml<u64>),
    TrickStructTrackSegmentUid(Ebml<Vec<u8>>),
    ContentEncodings(Ebml<ContentEncodings>),
}

impl TrackEntryFields {
    /// The child's element ID and its two ordering slots.
    #[verifier::rlimit(60)]
    #[verifier::spinoff_prover]
    pub fn index(&self) -> (r: (EbmlId, Option<u64>, u64))
        ensures
            r.0.spec_u64() == self.model().eid(),
            r.1 == self.model().idx(),
            r.2 == self.model().key(),
    {
        match self {
            Self::TrackNumber(val) => (EbmlId::TrackNumber, val.index, val.id),
            Self::TrackUid(val) => (EbmlId::TrackUid, val.index, val.id),
            Self::TrackType(val) => (EbmlId::TrackType, val.index, val.id),
            Self::FlagEnabled(val) => (EbmlId::FlagEnabled, val.index, val.id),
            Self::FlagDefault(val) => (EbmlId::FlagDefault, val.index, val.id),
            Self::FlagForced(val) => (EbmlId::FlagForced, val.index, val.id),
            Self::FlagHearingImpaired(val) => (EbmlId::FlagHearingImpaired, val.index, val.id),
            Self::FlagVisualImpaired(val) => (EbmlId::FlagVisualImpaired, val.index, val.id),
            Self::FlagTextDescriptions(val) => (EbmlId::FlagTextDescriptions, val.index, val.id),
            Self::FlagOriginal(val) => (EbmlId::FlagOriginal, val.index, val.id),
            Self::FlagCommentary(val) => (EbmlId::FlagCommentary, val.index, val.id),
            Self::FlagLacing(val) => (EbmlId::FlagLacing, val.index, val.id),
            Self::MinCache(val) => (EbmlId::MinCache, val.index, val.id),
            Self::MaxCache(val) => (EbmlId::MaxCache, val.index, val.id),
            Self::DefaultDuration(val) => (EbmlId::DefaultDuration, val.index, val.id),
            Self::DefaultDecodedFieldDuration(val) => (EbmlId::DefaultDecodedFieldDuration, val.index, val.id),
            Self::TrackTimestampScale(val) => (EbmlId::TrackTimestampScale, val.index, val.id),
            Self::TrackOffset(val) => (EbmlId::TrackOffset, val.index, val.id),
            Self::MaxBlockAdditionId(val) => (EbmlId::MaxBlockAdditionId, val.index, val.id),
            Self::BlockAdditionMapping(val) => (EbmlId::BlockAdditionMapping, val.index, val.id),
            Self::Name(val) => (EbmlId::Name, val.index, val.id),
            Self::Language(val) => (EbmlId::Language, val.index, val.id),
            Self::LanguageBcp47(val) => (EbmlId::LanguageBcp47, val.index, val.id),
            Self::CodecId(val) => (EbmlId::CodecId, val.index, val.id),
            Self::CodecPrivate(val) => (EbmlId::CodecPrivate, val.index, val.id),
            Self::CodecName(val) => (EbmlId::CodecName, val.index, val.id),
            Self::AttachmentLink(val) => (EbmlId::AttachmentLink, val.index, val.id),
            Self::CodecSettings(val) => (EbmlId::CodecSettings, val.index, val.id),
            Self::CodecInfoUrl(val) => (EbmlId::CodecInfoUrl, val.index, val.id),
            Self::CodecDownloadUrl(val) => (EbmlId::CodecDownloadUrl, val.index, val.id),
            Self::CodecDecodeAll(val) => (EbmlId::CodecDecodeAll, val.index, val.id),
            Self::TrackOverlay(val) => (EbmlId::TrackOverlay, val.index, val.id),
            Self::CodecDelay(val) => (EbmlId::CodecDelay, val.index, val.id),
            Self::SeekPreRoll(val) => (EbmlId::SeekPreRoll, val.index, val.id),
            Self::TrackTranslate(val) => (EbmlId::TrackTranslate, val.index, val.id),
            Self::Video(val) => (EbmlId::Video, val.index, val.id),
            Self::Audio(val) => (EbmlId::Audio, val.index, val.id),
            Self::TrackOperation(val) => (EbmlId::TrackOperation, val.index, val.id),
            Self::TrickTrackUid(val) => (EbmlId::TrickTrackUid, val.index, val.id),
            Self::TrickTrackSegmentUid(val) => (EbmlId::TrickTrackSegmentUid, val.index, val.id),
            Self::TrickTrackFlag(val) => (EbmlId::TrickTrackFlag, val.index, val.id),
            Self::TrickStructTrackUid(val) => (EbmlId::TrickStructTrackUid, val.index, val.id),
            Self::TrickStructTrackSegmentUid(val) => (EbmlId::TrickStructTrackSegmentUid, val.index, val.id),
            Self::ContentEncodings(val) => (EbmlId::ContentEncodings, val.index, val.id),
        }
    }

    /// Write this child's frame.
    #[verifier::rlimit(60)]
    #[verifier::spinoff_prover]
    pub fn write_el(&self, w: &mut Vec<u8>) -> (r: Result<usize, MatroskaError>)
        ensures
            r is Ok <==> el_ok(self.model()),
            r is Ok ==> final(w)@ == old(w)@ + el_bytes(self.model())
                && r->Ok_0 == el_bytes(self.model()).len(),
            r is Err ==> final(w)@ == old(w)@ && r->Err_0 is InvalidVarIntMoreThanVintMax,
    {
        match self {
            Self::TrackNumber(val) => crate::io::write_el_uint(w, 0xD7, &*val.v),
            Self::TrackUid(val) => crate::io::write_el_uint(w, 0x73C5, &*val.v),
            Self::TrackType(val) => crate::io::write_el_uint(w, 0x83, &*val.v),
            Self::FlagEnabled(val) => crate::io::write_el_uint(w, 0xB9, &*val.v),
            Self::FlagDefault(val) => crate::io::write_el_uint(w, 0x88, &*val.v),
            Self::FlagForced(val) => crate::io::write_el_uint(w, 0x55AA, &*val.v),
            Self::FlagHearingImpaired(val) => crate::io::write_el_uint(w, 0x55AB, &*val.v),
            Self::FlagVisualImpaired(val) => crate::io::write_el_uint(w, 0x55AC, &*val.v),
            Self::FlagTextDescriptions(val) => crate::io::write_el_uint(w, 0x55AD, &*val.v),
            Self::FlagOriginal(val) => crate::io::write_el_uint(w, 0x55AE, &*val.v),
            Self::FlagCommentary(val) => crate::io::write_el_uint(w, 0x55AF, &*val.v),
            Self::FlagLacing(val) => crate::io::write_el_uint(w, 0x9C, &*val.v),
            Self::MinCache(val) => crate::io::write_el_uint(w, 0x6DE7, &*val.v),
            Self::MaxCache(val) => crate::io::write_el_uint(w, 0x6DF8, &*val.v),
            Self::DefaultDuration(val) => crate::io::write_el_uint(w, 0x23E383, &*val.v),
            Self::DefaultDecodedFieldDuration(val) => crate::io::write_el_uint(w, 0x234E7A, &*val.v),
            Self::TrackTimestampScale(val) => crate::io::write_el_float64(w, 0x23314F, *val.v),
            Self::TrackOffset(val) => crate::io::write_el_int(w, 0x537F, &*val.v),
            Self::MaxBlockAdditionId(val) => crate::io::write_el_uint(w, 0x55EE, &*val.v),
            Self::BlockAdditionMapping(val) => (*val.v).write_blocking(w),
            Self::Name(val) => crate::io::write_el_utf8(w, 0x536E, (*val.v).as_str()),
            Self::Language(val) => crate::io::write_el_string(w, 0x22B59C, (*val.v).as_str()),
            Self::LanguageBcp47(val) => crate::io::write_el_string(w, 0x22B59D, (*val.v).as_str()),
            Self::CodecId(val) => crate::io::write_el_string(w, 0x86, (*val.v).as_str()),
            Self::CodecPrivate(val) => crate::io::write_el_bin(w, 0x63A2, (*val.v).as_slice()),
            Self::CodecName(val) => crate::io::write_el_utf8(w, 0x258688, (*val.v).as_str()),
            Self::AttachmentLink(val) => crate::io::write_el_uint(w, 0x7446, &*val.v),
            Self::CodecSettings(val) => crate::io::write_el_utf8(w, 0x3A9697, (*val.v).as_str()),
            Self::CodecInfoUrl(val) => crate::io::write_el_string(w, 0x3B4040, (*val.v).as_str()),
            Self::CodecDownloadUrl(val) => crate::io::write_el_string(w, 0x26B240, (*val.v).as_str()),
            Self::CodecDecodeAll(val) => crate::io::write_el_uint(w, 0xAA, &*val.v),
            Self::TrackOverlay(val) => crate::io::write_el_uint(w, 0x6FAB, &*val.v),
            Self::CodecDelay(val) => crate::io::write_el_uint(w, 0x56AA, &*val.v),
            Self::SeekPreRoll(val) => crate::io::write_el_uint(w, 0x56BB, &*val.v),
            Self::TrackTranslate(val) => (*val.v).write_blocking(w),
            Self::Video(val) => (*val.v).write_blocking(w),
            Self::Audio(val) => (*val.v).write_blocking(w),
            Self::TrackOperation(val) => (*val.v).write_blocking(w),
            Self::TrickTrackUid(val) => crate::io::write_el_uint(w, 0xC0, &*val.v),
            Self::TrickTrackSegmentUid(val) => crate::io::write_el_bin(w, 0xC1, (*val.v).as_slice()),
            Self::TrickTrackFlag(val) => crate::io::write_el_uint(w, 0xC6, &*val.v),
            Self::TrickStructTrackUid(val) => crate::io::write_el_uint(w, 0xC7, &*val.v),
            Self::TrickStructTrackSegmentUid(val) => crate::io::write_el_bin(w, 0xC4, (*val.v).as_slice()),
            Self::ContentEncodings(val) => (*val.v).write_blocking(w),
        }
    }
}

impl EbmlField for TrackEntryFields {
    open spec fn model(&self) -> FieldModel {
        match self {
            Self::TrackNumber(e) => FieldModel::UInt { id: 0xD7, idx: e.index, key: e.id, v: *e.v },
            Self::TrackUid(e) => FieldModel::UInt { id: 0x73C5, idx: e.index, key: e.id, v: *e.v },
            Self::TrackType(e) => FieldModel::UInt { id: 0x83, idx: e.index, key: e.id, v: *e.v },
            Self::FlagEnabled(e) => FieldModel::UInt { id: 0xB9, idx: e.index, key: e.id, v: *e.v },
            Self::FlagDefault(e) => FieldModel::UInt { id: 0x88, idx: e.index, key: e.id, v: *e.v },
            Self::FlagForced(e) => FieldModel::UInt { id: 0x55AA, idx: e.index, key: e.id, v: *e.v },
            Self::FlagHearingImpaired(e) => FieldModel::UInt { id: 0x55AB, idx: e.index, key: e.id, v: *e.v },
            Self::FlagVisualImpaired(e) => FieldModel::UInt { id: 0x55AC, idx: e.index, key: e.id, v: *e.v },
            Self::FlagTextDescriptions(e) => FieldModel::UInt { id: 0x55AD, idx: e.index, key: e.id, v: *e.v },
            Self::FlagOriginal(e) => FieldModel::UInt { id: 0x55AE, idx: e.index, key: e.id, v: *e.v },
            Self::FlagCommentary(e) => FieldModel::UInt { id: 0x55AF, idx: e.index, key: e.id, v: *e.v },
            Self::FlagLacing(e) => FieldModel::UInt { id: 0x9C, idx: e.index, key: e.id, v: *e.v },
            Self::MinCache(e) => FieldModel::UInt { id: 0x6DE7, idx: e.index, key: e.id, v: *e.v },
            Self::MaxCache(e) => FieldModel::UInt { id: 0x6DF8, idx: e.index, key: e.id, v: *e.v },
            Self::DefaultDuration(e) => FieldModel::UInt { id: 0x23E383, idx: e.index, key: e.id, v: *e.v },
            Self::DefaultDecodedFieldDuration(e) => FieldModel::UInt { id: 0x234E7A, idx: e.index, key: e.id, v: *e.v },
            Self::TrackTimestampScale(e) => FieldModel::Flt64 { id: 0x23314F, idx: e.index, key: e.id, bits: *e.v },
            Self::TrackOffset(e) => FieldModel::SInt { id: 0x537F, idx: e.index, key: e.id, v: *e.v },
            Self::MaxBlockAdditionId(e) => FieldModel::UInt { id: 0x55EE, idx: e.index, key: e.id, v: *e.v },
            Self::BlockAdditionMapping(e) => FieldModel::Node { id: 0x41E4, idx: e.index, key: e.id, children: (*e.v).model() },
            Self::Name(e) => FieldModel::Text { id: 0x536E, idx: e.index, key: e.id, s: (*e.v)@ },
            Self::Language(e) => FieldModel::Text { id: 0x22B59C, idx: e.index, key: e.id, s: (*e.v)@ },
            Self::LanguageBcp47(e) => FieldModel::Text { id: 0x22B59D, idx: e.index, key: e.id, s: (*e.v)@ },
            Self::CodecId(e) => FieldModel::Text { id: 0x86, idx: e.index, key: e.id, s: (*e.v)@ },
            Self::CodecPrivate(e) => FieldModel::Bin { id: 0x63A2, idx: e.index, key: e.id, b: (*e.v)@ },
            Self::CodecName(e) => FieldModel::Text { id: 0x258688, idx: e.index, key: e.id, s: (*e.v)@ },
            Self::AttachmentLink(e) => FieldModel::UInt { id: 0x7446, idx: e.index, key: e.id, v: *e.v },
            Self::CodecSettings(e) => FieldModel::Text { id: 0x3A9697, idx: e.index, key: e.id, s: (*e.v)@ },
            Self::CodecInfoUrl(e) => FieldModel::Text { id: 0x3B4040, idx: e.index, key: e.id, s: (*e.v)@ },
            Self::CodecDownloadUrl(e) => FieldModel::Text { id: 0x26B240, idx: e.index, key: e.id, s: (*e.v)@ },
            Self::CodecDecodeAll(e) => FieldModel::UInt { id: 0xAA, idx: e.index, key: e.id, v: *e.v },
            Self::TrackOverlay(e) => FieldModel::UInt { id: 0x6FAB, idx: e.index, key: e.id, v: *e.v },
            Self::CodecDelay(e) => FieldModel::UInt { id: 0x56AA, idx: e.index, key: e.id, v: *e.v },
            Self::SeekPreRoll(e) => FieldModel::UInt { id: 0x56BB, idx: e.index, key: e.id, v: *e.v },
            Self::TrackTranslate(e) => FieldModel::Node { id: 0x6624, idx: e.index, key: e.id, children: (*e.v).model() },
            Self::Video(e) => FieldModel::Node { id: 0xE0, idx: e.index, key: e.id, children: (*e.v).model() },
            Self::Audio(e) => FieldModel::Node { id: 0xE1, idx: e.index, key: e.id, children: (*e.v).model() },
            Self::TrackOperation(e) => FieldModel::Node { id: 0xE2, idx: e.index, key: e.id, children: (*e.v).model() },
            Self::TrickTrackUid(e) => FieldModel::UInt { id: 0xC0, idx: e.index, key: e.id, v: *e.v },
            Self::TrickTrackSegmentUid(e) => FieldModel::Bin { id: 0xC1, idx: e.index, key: e.id, b: (*e.v)@ },
            Self::TrickTrackFlag(e) => FieldModel::UInt { id: 0xC6, idx: e.index, key: e.id, v: *e.v },
            Self::TrickStructTrackUid(e) => FieldModel::UInt { id: 0xC7, idx: e.index, key: e.id, v: *e.v },
            Self::TrickStructTrackSegmentUid(e) => FieldModel::Bin { id: 0xC4, idx: e.index, key: e.id, b: (*e.v)@ },
            Self::ContentEncodings(e) => FieldModel::Node { id: 0x6D80, idx: e.index, key: e.id, children: (*e.v).model() },
        }
    }

    fn sort_key(&self) -> (r: (Option<u64>, u64)) {
        match self {
            Self::TrackNumber(e) => (e.index, e.id),
            Self::TrackUid(e) => (e.index, e.id),
            Self::TrackType(e) => (e.index, e.id),
            Self::FlagEnabled(e) => (e.index, e.id),
            Self::FlagDefault(e) => (e.index, e.id),
            Self::FlagForced(e) => (e.index, e.id),
            Self::FlagHearingImpaired(e) => (e.index, e.id),
            Self::FlagVisualImpaired(e) => (e.index, e.id),
            Self::FlagTextDescriptions(e) => (e.index, e.id),
            Self::FlagOriginal(e) => (e.index, e.id),
            Self::FlagCommentary(e) => (e.index, e.id),
            Self::FlagLacing(e) => (e.index, e.id),
            Self::MinCache(e) => (e.index, e.id),
            Self::MaxCache(e) => (e.index, e.id),
            Self::DefaultDuration(e) => (e.index, e.id),
            Self::DefaultDecodedFieldDuration(e) => (e.index, e.id),
            Self::TrackTimestampScale(e) => (e.index, e.id),
            Self::TrackOffset(e) => (e.index, e.id),
            Self::MaxBlockAdditionId(e) => (e.index, e.id),
            Self::BlockAdditionMapping(e) => (e.index, e.id),
            Self::Name(e) => (e.index, e.id),
            Self::Language(e) => (e.index, e.id),
            Self::LanguageBcp47(e) => (e.index, e.id),
            Self::CodecId(e) => (e.index, e.id),
            Self::CodecPrivate(e) => (e.index, e.id),
            Self::CodecName(e) => (e.index, e.id),
            Self::AttachmentLink(e) => (e.index, e.id),
            Self::CodecSettings(e) => (e.index, e.id),
            Self::CodecInfoUrl(e) => (e.index, e.id),
            Self::CodecDownloadUrl(e) => (e.index, e.id),
            Self::CodecDecodeAll(e) => (e.index, e.id),
            Self::TrackOverlay(e) => (e.index, e.id),
            Self::CodecDelay(e) => (e.index, e.id),
            Self::SeekPreRoll(e) => (e.index, e.id),
            Self::TrackTranslate(e) => (e.index, e.id),
            Self::Video(e) => (e.index, e.id),
            Self::Audio(e) => (e.index, e.id),
            Self::TrackOperation(e) => (e.index, e.id),
            Self::TrickTrackUid(e) => (e.index, e.id),
            Self::TrickTrackSegmentUid(e) => (e.index, e.id),
            Self::TrickTrackFlag(e) => (e.index, e.id),
            Self::TrickStructTrackUid(e) => (e.index, e.id),
            Self::TrickStructTrackSegmentUid(e) => (e.index, e.id),
            Self::ContentEncodings(e) => (e.index, e.id),
        }
    }
}

/// The `BlockAdditionMapping` structural element.
#[derive(Debug)]
pub struct BlockAdditionMapping {
    pub size: u64,
    pub block_add_id_value: Option<Ebml<u64>>,
    pub block_add_id_name: Option<Ebml<String>>,
    pub block_add_id_type: Ebml<u64>,
    pub block_add_id_extra_data: Option<Ebml<Vec<u8>>>,
}

impl BlockAdditionMapping {
    /// The models of the children, in declaration order.
    #[verifier::opaque]
    pub open spec fn raw_model(self) -> Seq<FieldModel>
    {
        (match self.block_add_id_value { Some(e) => seq![FieldModel::UInt { id: 0x41F0, idx: e.index, key: e.id, v: *e.v }], None => Seq::empty() })
            + (match self.block_add_id_name { Some(e) => seq![FieldModel::Text { id: 0x41A4, idx: e.index, key: e.id, s: (*e.v)@ }], None => Seq::empty() })
            + seq![FieldModel::UInt { id: 0x41E7, idx: self.block_add_id_type.index, key: self.block_add_id_type.id, v: *self.block_add_id_type.v }]
            + (match self.block_add_id_extra_data { Some(e) => seq![FieldModel::Bin { id: 0x41ED, idx: e.index, key: e.id, b: (*e.v)@ }], None => Seq::empty() })
    }

    /// The children in emission order.
    #[verifier::opaque]
    pub open spec fn model(self) -> Seq<FieldModel>
    {
        sort_fields_spec(self.raw_model())
    }

    /// Append the `block_add_id_value` child values to a field run.
    #[verifier::loop_isolation(false)]
    fn push_block_add_id_value(&self, v: &mut Vec<BlockAdditionMappingFields>)
        ensures
            models_of::<BlockAdditionMappingFields>(final(v)@) == models_of::<BlockAdditionMappingFields>(old(v)@) + (match &self.block_add_id_value { Some(e) => seq![FieldModel::UInt { id: 0x41F0, idx: e.index, key: e.id, v: *e.v }], None => Seq::empty() }),
    {
        match &self.block_add_id_value {
            Some(e) => {
                let ghost prevv = v@;
                v.push(BlockAdditionMappingFields::BlockAddIdValue(crate::dup_ebml_copy(e)));
                proof {
                    assert(models_of::<BlockAdditionMappingFields>(v@) =~= models_of::<BlockAdditionMappingFields>(prevv).push(v@.last().model()));
                    assert(models_of::<BlockAdditionMappingFields>(prevv).push(v@.last().model()) =~= models_of::<BlockAdditionMappingFields>(prevv) + (match &self.block_add_id_value { Some(e) => seq![FieldModel::UInt { id: 0x41F0, idx: e.index, key: e.id, v: *e.v }], None => Seq::empty() }));
                }
            },
            None => {
                proof {
                    assert(models_of::<BlockAdditionMappingFields>(v@) =~= models_of::<BlockAdditionMappingFields>(v@) + (match &self.block_add_id_value { Some(e) => seq![FieldModel::UInt { id: 0x41F0, idx: e.index, key: e.id, v: *e.v }], None => Seq::empty() }));
                }
            },
        }
    }

    /// Append the `block_add_id_name` child values to a field run.
    #[verifier::loop_isolation(false)]
    fn push_block_add_id_name(&self, v: &mut Vec<BlockAdditionMappingFields>)
        ensures
            models_of::<BlockAdditionMappingFields>(final(v)@) == models_of::<BlockAdditionMappingFields>(old(v)@) + (match &self.block_add_id_name { Some(e) => seq![FieldModel::Text { id: 0x41A4, idx: e.index, key: e.id, s: (*e.v)@ }], None => Seq::empty() }),
    {
        match &self.block_add_id_name {
            Some(e) => {
                let ghost prevv = v@;
                v.push(BlockAdditionMappingFields::BlockAddIdName(crate::dup_ebml_string(e)));
                proof {
                    assert(models_of::<BlockAdditionMappingFields>(v@) =~= models_of::<BlockAdditionMappingFields>(prevv).push(v@.last().model()));
                    assert(models_of::<BlockAdditionMappingFields>(prevv).push(v@.last().model()) =~= models_of::<BlockAdditionMappingFields>(prevv) + (match &self.block_add_id_name { Some(e) => seq![FieldModel::Text { id: 0x41A4, idx: e.index, key: e.id, s: (*e.v)@ }], None => Seq::empty() }));
                }
            },
            None => {
                proof {
                    assert(models_of::<BlockAdditionMappingFields>(v@) =~= models_of::<BlockAdditionMappingFields>(v@) + (match &self.block_add_id_name { Some(e) => seq![FieldModel::Text { id: 0x41A4, idx: e.index, key: e.id, s: (*e.v)@ }], None => Seq::empty() }));
                }
            },
        }
    }

    /// Append the `block_add_id_type` child values to a field run.
    #[verifier::loop_isolation(false)]
    fn push_block_add_id_type(&self, v: &mut Vec<BlockAdditionMappingFields>)
        ensures
            models_of::<BlockAdditionMappingFields>(final(v)@) == models_of::<BlockAdditionMappingFields>(old(v)@) + seq![FieldModel::UInt { id: 0x41E7, idx: self.block_add_id_type.index, key: self.block_add_id_type.id, v: *self.block_add_id_type.v }],
    {
        let ghost prevv = v@;
        v.push(BlockAdditionMappingFields::BlockAddIdType(crate::dup_ebml_copy(&self.block_add_id_type)));
        proof {
            assert(models_of::<BlockAdditionMappingFields>(v@) =~= models_of::<BlockAdditionMappingFields>(prevv).push(v@.last().model()));
            assert(models_of::<BlockAdditionMappingFields>(prevv).push(v@.last().model()) =~= models_of::<BlockAdditionMappingFields>(prevv) + seq![FieldModel::UInt { id: 0x41E7, idx: self.block_add_id_type.index, key: self.block_add_id_type.id, v: *self.block_add_id_type.v }]);
        }
    }

    /// Append the `block_add_id_extra_data` child values to a field run.
    #[verifier::loop_isolation(false)]
    fn push_block_add_id_extra_data(&self, v: &mut Vec<BlockAdditionMappingFields>)
        ensures
            models_of::<BlockAdditionMappingFields>(final(v)@) == models_of::<BlockAdditionMappingFields>(old(v)@) + (match &self.block_add_id_extra_data { Some(e) => seq![FieldModel::Bin { id: 0x41ED, idx: e.index, key: e.id, b: (*e.v)@ }], None => Seq::empty() }),
    {
        match &self.block_add_id_extra_data {
            Some(e) => {
                let ghost prevv = v@;
                v.push(BlockAdditionMappingFields::BlockAddIdExtraData(crate::dup_ebml_bytes(e)));
                proof {
                    assert(models_of::<BlockAdditionMappingFields>(v@) =~= models_of::<BlockAdditionMappingFields>(prevv).push(v@.last().model()));
                    assert(models_of::<BlockAdditionMappingFields>(prevv).push(v@.last().model()) =~= models_of::<BlockAdditionMappingFields>(prevv) + (match &self.block_add_id_extra_data { Some(e) => seq![FieldModel::Bin { id: 0x41ED, idx: e.index, key: e.id, b: (*e.v)@ }], None => Seq::empty() }));
                }
            },
            None => {
                proof {
                    assert(models_of::<BlockAdditionMappingFields>(v@) =~= models_of::<BlockAdditionMappingFields>(v@) + (match &self.block_add_id_extra_data { Some(e) => seq![FieldModel::Bin { id: 0x41ED, idx: e.index, key: e.id, b: (*e.v)@ }], None => Seq::empty() }));
                }
            },
        }
    }

    /// The present children, each paired with its ID, in emission order.
    #[verifier::rlimit(100)]
    #[verifier::spinoff_prover]
    pub fn elements(&self) -> (r: Vec<BlockAdditionMappingFields>)
        ensures
            models_of::<BlockAdditionMappingFields>(r@) == self.model(),
    {
        let mut v: Vec<BlockAdditionMappingFields> = Vec::new();
        proof {
            assert(models_of::<BlockAdditionMappingFields>(v@) =~= Seq::<FieldModel>::empty());
        }
        self.push_block_add_id_value(&mut v);
        self.push_block_add_id_name(&mut v);
        self.push_block_add_id_type(&mut v);
        self.push_block_add_id_extra_data(&mut v);
        proof {
            reveal(BlockAdditionMapping::raw_model);
            reveal(BlockAdditionMapping::model);
            assert(Seq::<FieldModel>::empty() + (match &self.block_add_id_value { Some(e) => seq![FieldModel::UInt { id: 0x41F0, idx: e.index, key: e.id, v: *e.v }], None => Seq::empty() }) =~= (match &self.block_add_id_value { Some(e) => seq![FieldModel::UInt { id: 0x41F0, idx: e.index, key: e.id, v: *e.v }], None => Seq::empty() }));
            assert(models_of::<BlockAdditionMappingFields>(v@) == self.raw_model());
        }
        sort_fields(v)
    }

    /// A deep copy of the `block_add_id_value` slot.
    #[verifier::loop_isolation(false)]
    fn dup_block_add_id_value(&self) -> (r: Option<Ebml<u64>>)
        ensures
            (match &r { Some(e) => seq![FieldModel::UInt { id: 0x41F0, idx: e.index, key: e.id, v: *e.v }], None => Seq::empty() }) == (match &self.block_add_id_value { Some(e) => seq![FieldModel::UInt { id: 0x41F0, idx: e.index, key: e.id, v: *e.v }], None => Seq::empty() }),
    {
        match &self.block_add_id_value {
            Some(e) => Some(crate::dup_ebml_copy(e)),
            None => None,
        }
    }

    /// A deep copy of the `block_add_id_name` slot.
    #[verifier::loop_isolation(false)]
    fn dup_block_add_id_name(&self) -> (r: Option<Ebml<String>>)
        ensures
            (match &r { Some(e) => seq![FieldModel::Text { id: 0x41A4, idx: e.index, key: e.id, s: (*e.v)@ }], None => Seq::empty() }) == (match &self.block_add_id_name { Some(e) => seq![FieldModel::Text { id: 0x41A4, idx: e.index, key: e.id, s: (*e.v)@ }], None => Seq::empty() }),
    {
        match &self.block_add_id_name {
            Some(e) => Some(crate::dup_ebml_string(e)),
            None => None,
        }
    }

    /// A deep copy of the `block_add_id_type` slot.
    #[verifier::loop_isolation(false)]
    fn dup_block_add_id_type(&self) -> (r: Ebml<u64>)
        ensures
            seq![FieldModel::UInt { id: 0x41E7, idx: r.index, key: r.id, v: *r.v }] == seq![FieldModel::UInt { id: 0x41E7, idx: self.block_add_id_type.index, key: self.block_add_id_type.id, v: *self.block_add_id_type.v }],
    {
        crate::dup_ebml_copy(&self.block_add_id_type)
    }

    /// A deep copy of the `block_add_id_extra_data` slot.
    #[verifier::loop_isolation(false)]
    fn dup_block_add_id_extra_data(&self) -> (r: Option<Ebml<Vec<u8>>>)
        ensures
            (match &r { Some(e) => seq![FieldModel::Bin { id: 0x41ED, idx: e.index, key: e.id, b: (*e.v)@ }], None => Seq::empty() }) == (match &self.block_add_id_extra_data { Some(e) => seq![FieldModel::Bin { id: 0x41ED, idx: e.index, key: e.id, b: (*e.v)@ }], None => Seq::empty() }),
    {
        match &self.block_add_id_extra_data {
            Some(e) => Some(crate::dup_ebml_bytes(e)),
            None => None,
        }
    }

    /// A deep copy with the same children, positions, and keys.
    #[verifier::rlimit(100)]
    #[verifier::spinoff_prover]
    pub fn duplicate(&self) -> (r: Self)
        ensures
            r.raw_model() == self.raw_model(),
            r.size == self.size,
    {
        let r = BlockAdditionMapping {
            size: self.size,
            block_add_id_value: self.dup_block_add_id_value(),
            block_add_id_name: self.dup_block_add_id_name(),
            block_add_id_type: self.dup_block_add_id_type(),
            block_add_id_extra_data: self.dup_block_add_id_extra_data(),
        };
        proof {
            reveal(BlockAdditionMapping::raw_model);
            assert(r.raw_model() == self.raw_model());
        }
        r
    }
}

impl BlockAdditionMapping {
    /// Serialise the whole element: body to a scratch buffer first, then
    /// the header with the now-known length, then the body.
    pub fn write_blocking(&self, w: &mut Vec<u8>) -> (r: Result<usize, MatroskaError>)
        ensures
            r is Ok <==> body_ok_rec(self.model()) && cat_bytes(self.model()).len() < 0xFFFFFFFFFFFFFF,
            r is Ok ==> final(w)@ == old(w)@ + node_frame_bytes(0x41E4, cat_bytes(self.model()))
                && r->Ok_0 == node_frame_bytes(0x41E4, cat_bytes(self.model())).len(),
            r is Err ==> final(w)@ == old(w)@ && r->Err_0 is InvalidVarIntMoreThanVintMax,
    {
        let mut buf: Vec<u8> = Vec::new();
        match self.write_body_blocking(&mut buf) {
            Ok(_) => {},
            Err(e) => {
                return Err(e);
            },
        }
        let start = w.len();
        match crate::io::write_element_id_size(w, 0x41E4, buf.len() as u64) {
            Ok(_) => {},
            Err(e) => {
                return Err(e);
            },
        }
        w.append(&mut buf);
        Ok(w.len() - start)
    }

    /// Write this element's header with the given body size.
    pub fn write_header_blocking(&self, w: &mut Vec<u8>, size: u64) -> (r: Result<usize, MatroskaError>)
        ensures
            r is Ok <==> crate::io::size_encodable(size),
            r is Ok ==> final(w)@ == old(w)@ + crate::io::header_bytes(0x41E4, size)
                && r->Ok_0 == crate::io::header_bytes(0x41E4, size).len(),
            r is Err ==> final(w)@ == old(w)@ && r->Err_0 is InvalidVarIntMoreThanVintMax,
    {
        crate::io::write_element_id_size(w, 0x41E4, size)
    }

    /// Write the body: every present child, in emission order.
    #[verifier::loop_isolation(false)]
    #[verifier::rlimit(60)]
    #[verifier::spinoff_prover]
    pub fn write_body_blocking(&self, w: &mut Vec<u8>) -> (r: Result<usize, MatroskaError>)
        ensures
            r is Ok <==> body_ok_rec(self.model()),
            r is Ok ==> final(w)@ == old(w)@ + cat_bytes(self.model())
                && r->Ok_0 == cat_bytes(self.model()).len(),
            r is Err ==> r->Err_0 is InvalidVarIntMoreThanVintMax,
    {
        let fields = self.elements();
        let start = w.len();
        let ghost ms = self.model();
        let mut i: usize = 0;
        while i < fields.len()
            invariant
                i <= fields@.len(),
                models_of::<BlockAdditionMappingFields>(fields@) == ms,
                w@ == old(w)@ + cat_bytes(ms.take(i as int)),
                body_ok_rec(ms.take(i as int)),
            decreases fields@.len() - i,
        {
            proof {
                assert(models_of::<BlockAdditionMappingFields>(fields@)[i as int] == ms[i as int]);
            }
            match fields[i].write_el(w) {
                Ok(_) => {},
                Err(e) => {
                    proof {
                        lemma_body_ok_forall(ms);
                    }
                    return Err(e);
                },
            }
            proof {
                assert(ms.take(i + 1) =~= ms.take(i as int).push(ms[i as int]));
                lemma_cat_snoc(ms.take(i as int), ms[i as int]);
            }
            i += 1;
        }
        proof {
            assert(ms.take(ms.len() as int) =~= ms);
            lemma_body_ok_forall(ms);
        }
        Ok(w.len() - start)
    }
}

/// One present child of a `BlockAdditionMapping`, paired with its value.
#[derive(Debug)]
pub enum BlockAdditionMappingFields {
    BlockAddIdValue(Ebml<u64>),
    BlockAddIdName(Ebml<String>),
    BlockAddIdType(Ebml<u64>),
    BlockAddIdExtraData(Ebml<Vec<u8>>),
}

impl BlockAdditionMappingFields {
    /// The child's element ID and its two ordering slots.
    #[verifier::rlimit(60)]
    #[verifier::spinoff_prover]
    pub fn index(&self) -> (r: (EbmlId, Option<u64>, u64))
        ensures
            r.0.spec_u64() == self.model().eid(),
            r.1 == self.model().idx(),
            r.2 == self.model().key(),
    {
        match self {
            Self::BlockAddIdValue(val) => (EbmlId::BlockAddIdValue, val.index, val.id),
            Self::BlockAddIdName(val) => (EbmlId::BlockAddIdName, val.index, val.id),
            Self::BlockAddIdType(val) => (EbmlId::BlockAddIdType, val.index, val.id),
            Self::BlockAddIdExtraData(val) => (EbmlId::BlockAddIdExtraData, val.index, val.id),
        }
    }

    /// Write this child's frame.
    #[verifier::rlimit(60)]
    #[verifier::spinoff_prover]
    pub fn write_el(&self, w: &mut Vec<u8>) -> (r: Result<usize, MatroskaError>)
        ensures
            r is Ok <==> el_ok(self.model()),
            r is Ok ==> final(w)@ == old(w)@ + el_bytes(self.model())
                && r->Ok_0 == el_bytes(self.model()).len(),
            r is Err ==> final(w)@ == old(w)@ && r->Err_0 is InvalidVarIntMoreThanVintMax,
    {
        match self {
            Self::BlockAddIdValue(val) => crate::io::write_el_uint(w, 0x41F0, &*val.v),
            Self::BlockAddIdName(val) => crate::io::write_el_string(w, 0x41A4, (*val.v).as_str()),
            Self::BlockAddIdType(val) => crate::io::write_el_uint(w, 0x41E7, &*val.v),
            Self::BlockAddIdExtraData(val) => crate::io::write_el_bin(w, 0x41ED, (*val.v).as_slice()),
        }
    }
}

impl EbmlField for BlockAdditionMappingFields {
    open spec fn model(&self) -> FieldModel {
        match self {
            Self::BlockAddIdValue(e) => FieldModel::UInt { id: 0x41F0, idx: e.index, key: e.id, v: *e.v },
            Self::BlockAddIdName(e) => FieldModel::Text { id: 0x41A4, idx: e.index, key: e.id, s: (*e.v)@ },
            Self::BlockAddIdType(e) => FieldModel::UInt { id: 0x41E7, idx: e.index, key: e.id, v: *e.v },
            Self::BlockAddIdExtraData(e) => FieldModel::Bin { id: 0x41ED, idx: e.index, key: e.id, b: (*e.v)@ },
        }
    }

    fn sort_key(&self) -> (r: (Option<u64>, u64)) {
        match self {
            Self::BlockAddIdValue(e) => (e.index, e.id),
            Self::BlockAddIdName(e) => (e.index, e.id),
            Self::BlockAddIdType(e) => (e.index, e.id),
            Self::BlockAddIdExtraData(e) => (e.index, e.id),
        }
    }
}

/// The `TrackTranslate` structural element.
#[derive(Debug)]
pub struct TrackTranslate {
    pub size: u64,
    pub track_translate_track_id: Ebml<Vec<u8>>,
    pub track_translate_codec: Ebml<u64>,
    pub track_translate_edition_uid: Vec<Ebml<u64>>,
}

/// The models of the `track_translate_edition_uid` children of a `TrackTranslate`.
pub open spec fn tracktranslate_track_translate_edition_uid_models(s: Seq<Ebml<u64>>) -> Seq<FieldModel> {
    s.map_values(|e: Ebml<u64>| FieldModel::UInt { id: 0x66FC, idx: e.index, key: e.id, v: *e.v })
}

impl TrackTranslate {
    /// The models of the children, in declaration order.
    #[verifier::opaque]
    pub open spec fn raw_model(self) -> Seq<FieldModel>
    {
        seq![FieldModel::Bin { id: 0x66A5, idx: self.track_translate_track_id.index, key: self.track_translate_track_id.id, b: (*self.track_translate_track_id.v)@ }]
            + seq![FieldModel::UInt { id: 0x66BF, idx: self.track_translate_codec.index, key: self.track_translate_codec.id, v: *self.track_translate_codec.v }]
            + tracktranslate_track_translate_edition_uid_models(self.track_translate_edition_uid@)
    }

    /// The children in emission order.
    #[verifier::opaque]
    pub open spec fn model(self) -> Seq<FieldModel>
    {
        sort_fields_spec(self.raw_model())
    }

    /// Append the `track_translate_track_id` child values to a field run.
    #[verifier::loop_isolation(false)]
    fn push_track_translate_track_id(&self, v: &mut Vec<TrackTranslateFields>)
        ensures
            models_of::<TrackTranslateFields>(final(v)@) == models_of::<TrackTranslateFields>(old(v)@) + seq![FieldModel::Bin { id: 0x66A5, idx: self.track_translate_track_id.index, key: self.track_translate_track_id.id, b: (*self.track_translate_track_id.v)@ }],
    {
        let ghost prevv = v@;
        v.push(TrackTranslateFields::TrackTranslateTrackId(crate::dup_ebml_bytes(&self.track_translate_track_id)));
        proof {
            assert(models_of::<TrackTranslateFields>(v@) =~= models_of::<TrackTranslateFields>(prevv).push(v@.last().model()));
            assert(models_of::<TrackTranslateFields>(prevv).push(v@.last().model()) =~= models_of::<TrackTranslateFields>(prevv) + seq![FieldModel::Bin { id: 0x66A5, idx: self.track_translate_track_id.index, key: self.track_translate_track_id.id, b: (*self.track_translate_track_id.v)@ }]);
        }
    }

    /// Append the `track_translate_codec` child values to a field run.
    #[verifier::loop_isolation(false)]
    fn push_track_translate_codec(&self, v: &mut Vec<TrackTranslateFields>)
        ensures
            models_of::<TrackTranslateFields>(final(v)@) == models_of::<TrackTranslateFields>(old(v)@) + seq![FieldModel::UInt { id: 0x66BF, idx: self.track_translate_codec.index, key: self.track_translate_codec.id, v: *self.track_translate_codec.v }],
    {
        let ghost prevv = v@;
        v.push(TrackTranslateFields::TrackTranslateCodec(crate::dup_ebml_copy(&self.track_translate_codec)));
        proof {
            assert(models_of::<TrackTranslateFields>(v@) =~= models_of::<TrackTranslateFields>(prevv).push(v@.last().model()));
            assert(models_of::<TrackTranslateFields>(prevv).push(v@.last().model()) =~= models_of::<TrackTranslateFields>(prevv) + seq![FieldModel::UInt { id: 0x66BF, idx: self.track_translate_codec.index, key: self.track_translate_codec.id, v: *self.track_translate_codec.v }]);
        }
    }

    /// Append the `track_translate_edition_uid` child values to a field run.
    #[verifier::loop_isolation(false)]
    fn push_track_translate_edition_uid(&self, v: &mut Vec<TrackTranslateFields>)
        ensures
            models_of::<TrackTranslateFields>(final(v)@) == models_of::<TrackTranslateFields>(old(v)@) + tracktranslate_track_translate_edition_uid_models(self.track_translate_edition_uid@),
    {
        let ghost base = models_of::<TrackTranslateFields>(v@);
        let mut i: usize = 0;
        while i < self.track_translate_edition_uid.len()
            invariant
                i <= self.track_translate_edition_uid@.len(),
                models_of::<TrackTranslateFields>(v@) == base + tracktranslate_track_translate_edition_uid_models(self.track_translate_edition_uid@.take(i as int)),
            decreases self.track_translate_edition_uid@.len() - i,
        {
            let e = &self.track_translate_edition_uid[i];
            let ghost prevv = v@;
            v.push(TrackTranslateFields::TrackTranslateEditionUid(crate::dup_ebml_copy(e)));
            proof {
                assert(self.track_translate_edition_uid@.take(i + 1) =~= self.track_translate_edition_uid@.take(i as int).push(self.track_translate_edition_uid@[i as int]));
                assert(models_of::<TrackTranslateFields>(v@) =~= models_of::<TrackTranslateFields>(prevv).push(v@.last().model()));
                assert(tracktranslate_track_translate_edition_uid_models(self.track_translate_edition_uid@.take(i + 1)) =~= tracktranslate_track_translate_edition_uid_models(self.track_translate_edition_uid@.take(i as int)).push(v@.last().model()));
                assert(base + tracktranslate_track_translate_edition_uid_models(self.track_translate_edition_uid@.take(i + 1)) =~= (base + tracktranslate_track_translate_edition_uid_models(self.track_translate_edition_uid@.take(i as int))).push(v@.last().model()));
            }
            i += 1;
        }
        proof {
            assert(self.track_translate_edition_uid@.take(self.track_translate_edition_uid@.len() as int) =~= self.track_translate_edition_uid@);
        }
    }

    /// The present children, each paired with its ID, in emission order.
    #[verifier::rlimit(100)]
    #[verifier::spinoff_prover]
    pub fn elements(&self) -> (r: Vec<TrackTranslateFields>)
        ensures
            models_of::<TrackTranslateFields>(r@) == self.model(),
    {
        let mut v: Vec<TrackTranslateFields> = Vec::new();
        proof {
            assert(models_of::<TrackTranslateFields>(v@) =~= Seq::<FieldModel>::empty());
        }
        self.push_track_translate_track_id(&mut v);
        self.push_track_translate_codec(&mut v);
        self.push_track_translate_edition_uid(&mut v);
        proof {
            reveal(TrackTranslate::raw_model);
            reveal(TrackTranslate::model);
            assert(Seq::<FieldModel>::empty() + seq![FieldModel::Bin { id: 0x66A5, idx: self.track_translate_track_id.index, key: self.track_translate_track_id.id, b: (*self.track_translate_track_id.v)@ }] =~= seq![FieldModel::Bin { id: 0x66A5, idx: self.track_translate_track_id.index, key: self.track_translate_track_id.id, b: (*self.track_translate_track_id.v)@ }]);
            assert(models_of::<TrackTranslateFields>(v@) == self.raw_model());
        }
        sort_fields(v)
    }

    /// A deep copy of the `track_translate_track_id` slot.
    #[verifier::loop_isolation(false)]
    fn dup_track_translate_track_id(&self) -> (r: Ebml<Vec<u8>>)
        ensures
            seq![FieldModel::Bin { id: 0x66A5, idx: r.index, key: r.id, b: (*r.v)@ }] == seq![FieldModel::Bin { id: 0x66A5, idx: self.track_translate_track_id.index, key: self.track_translate_track_id.id, b: (*self.track_translate_track_id.v)@ }],
    {
        crate::dup_ebml_bytes(&self.track_translate_track_id)
    }

    /// A deep copy of the `track_translate_codec` slot.
    #[verifier::loop_isolation(false)]
    fn dup_track_translate_codec(&self) -> (r: Ebml<u64>)
        ensures
            seq![FieldModel::UInt { id: 0x66BF, idx: r.index, key: r.id, v: *r.v }] == seq![FieldModel::UInt { id: 0x66BF, idx: self.track_translate_codec.index, key: self.track_translate_codec.id, v: *self.track_translate_codec.v }],
    {
        crate::dup_ebml_copy(&self.track_translate_codec)
    }

    /// A deep copy of the `track_translate_edition_uid` slot.
    #[verifier::loop_isolation(false)]
    fn dup_track_translate_edition_uid(&self) -> (r: Vec<Ebml<u64>>)
        ensures
            tracktranslate_track_translate_edition_uid_models(r@) == tracktranslate_track_translate_edition_uid_models(self.track_translate_edition_uid@),
    {
        let mut out: Vec<Ebml<u64>> = Vec::new();
        let mut i: usize = 0;
        while i < self.track_translate_edition_uid.len()
            invariant
                i <= self.track_translate_edition_uid@.len(),
                tracktranslate_track_translate_edition_uid_models(out@) == tracktranslate_track_translate_edition_uid_models(self.track_translate_edition_uid@.take(i as int)),
            decreases self.track_translate_edition_uid@.len() - i,
        {
            let e = &self.track_translate_edition_uid[i];
            let ghost prevo = out@;
            out.push(crate::dup_ebml_copy(e));
            proof {
                assert(self.track_translate_edition_uid@.take(i + 1) =~= self.track_translate_edition_uid@.take(i as int).push(self.track_translate_edition_uid@[i as int]));
                assert(out@.drop_last() =~= prevo);
                assert(self.track_translate_edition_uid@.take(i + 1).drop_last() =~= self.track_translate_edition_uid@.take(i as int));
                assert(FieldModel::UInt { id: 0x66FC, idx: (out@.last()).index, key: (out@.last()).id, v: *(out@.last()).v } == FieldModel::UInt { id: 0x66FC, idx: (self.track_translate_edition_uid@[i as int]).index, key: (self.track_translate_edition_uid@[i as int]).id, v: *(self.track_translate_edition_uid@[i as int]).v });
                assert(tracktranslate_track_translate_edition_uid_models(out@) =~= tracktranslate_track_translate_edition_uid_models(prevo).push(FieldModel::UInt { id: 0x66FC, idx: (out@.last()).index, key: (out@.last()).id, v: *(out@.last()).v }));
                assert(tracktranslate_track_translate_edition_uid_models(self.track_translate_edition_uid@.take(i + 1)) =~= tracktranslate_track_translate_edition_uid_models(self.track_translate_edition_uid@.take(i as int)).push(FieldModel::UInt { id: 0x66FC, idx: (self.track_translate_edition_uid@[i as int]).index, key: (self.track_translate_edition_uid@[i as int]).id, v: *(self.track_translate_edition_uid@[i as int]).v }));
            }
            i += 1;
        }
        proof {
            assert(self.track_translate_edition_uid@.take(self.track_translate_edition_uid@.len() as int) =~= self.track_translate_edition_uid@);
        }
        out
    }

    /// A deep copy with the same children, positions, and keys.
    #[verifier::rlimit(100)]
    #[verifier::spinoff_prover]
    pub fn duplicate(&self) -> (r: Self)
        ensures
            r.raw_model() == self.raw_model(),
            r.size == self.size,
    {
        let r = TrackTranslate {
            size: self.size,
            track_translate_track_id: self.dup_track_translate_track_id(),
            track_translate_codec: self.dup_track_translate_codec(),
            track_translate_edition_uid: self.dup_track_translate_edition_uid(),
        };
        proof {
            reveal(TrackTranslate::raw_model);
            assert(r.raw_model() == self.raw_model());
        }
        r
    }
}

impl TrackTranslate {
    /// Serialise the whole element: body to a scratch buffer first, then
    /// the header with the now-known length, then the body.
    pub fn write_blocking(&self, w: &mut Vec<u8>) -> (r: Result<usize, MatroskaError>)
        ensures
            r is Ok <==> body_ok_rec(self.model()) && cat_bytes(self.model()).len() < 0xFFFFFFFFFFFFFF,
            r is Ok ==> final(w)@ == old(w)@ + node_frame_bytes(0x6624, cat_bytes(self.model()))
                && r->Ok_0 == node_frame_bytes(0x6624, cat_bytes(self.model())).len(),
            r is Err ==> final(w)@ == old(w)@ && r->Err_0 is InvalidVarIntMoreThanVintMax,
    {
        let mut buf: Vec<u8> = Vec::new();
        match self.write_body_blocking(&mut buf) {
            Ok(_) => {},
            Err(e) => {
                return Err(e);
            },
        }
        let start = w.len();
        match crate::io::write_element_id_size(w, 0x6624, buf.len() as u64) {
            Ok(_) => {},
            Err(e) => {
                return Err(e);
            },
        }
        w.append(&mut buf);
        Ok(w.len() - start)
    }

    /// Write this element's header with the given body size.
    pub fn write_header_blocking(&self, w: &mut Vec<u8>, size: u64) -> (r: Result<usize, MatroskaError>)
        ensures
            r is Ok <==> crate::io::size_encodable(size),
            r is Ok ==> final(w)@ == old(w)@ + crate::io::header_bytes(0x6624, size)
                && r->Ok_0 == crate::io::header_bytes(0x6624, size).len(),
            r is Err ==> final(w)@ == old(w)@ && r->Err_0 is InvalidVarIntMoreThanVintMax,
    {
        crate::io::write_element_id_size(w, 0x6624, size)
    }

    /// Write the body: every present child, in emission order.
    #[verifier::loop_isolation(false)]
    #[verifier::rlimit(60)]
    #[verifier::spinoff_prover]
    pub fn write_body_blocking(&self, w: &mut Vec<u8>) -> (r: Result<usize, MatroskaError>)
        ensures
            r is Ok <==> body_ok_rec(self.model()),
            r is Ok ==> final(w)@ == old(w)@ + cat_bytes(self.model())
                && r->Ok_0 == cat_bytes(self.model()).len(),
            r is Err ==> r->Err_0 is InvalidVarIntMoreThanVintMax,
    {
        let fields = self.elements();
        let start = w.len();
        let ghost ms = self.model();
        let mut i: usize = 0;
        while i < fields.len()
            invariant
                i <= fields@.len(),
                models_of::<TrackTranslateFields>(fields@) == ms,
                w@ == old(w)@ + cat_bytes(ms.take(i as int)),
                body_ok_rec(ms.take(i as int)),
            decreases fields@.len() - i,
        {
            proof {
                assert(models_of::<TrackTranslateFields>(fields@)[i as int] == ms[i as int]);
            }
            match fields[i].write_el(w) {
                Ok(_) => {},
                Err(e) => {
                    proof {
                        lemma_body_ok_forall(ms);
                    }
                    return Err(e);
                },
            }
            proof {
                assert(ms.take(i + 1) =~= ms.take(i as int).push(ms[i as int]));
                lemma_cat_snoc(ms.take(i as int), ms[i as int]);
            }
            i += 1;
        }
        proof {
            assert(ms.take(ms.len() as int) =~= ms);
            lemma_body_ok_forall(ms);
        }
        Ok(w.len() - start)
    }
}

/// One present child of a `TrackTranslate`, paired with its value.
#[derive(Debug)]
pub enum TrackTranslateFields {
    TrackTranslateTrackId(Ebml<Vec<u8>>),
    TrackTranslateCodec(Ebml<u64>),
    TrackTranslateEditionUid(Ebml<u64>),
}

impl TrackTranslateFields {
    /// The child's element ID and its two ordering slots.
    #[verifier::rlimit(60)]
    #[verifier::spinoff_prover]
    pub fn index(&self) -> (r: (EbmlId, Option<u64>, u64))
        ensures
            r.0.spec_u64() == self.model().eid(),
            r.1 == self.model().idx(),
            r.2 == self.model().key(),
    {
        match self {
            Self::TrackTranslateTrackId(val) => (EbmlId::TrackTranslateTrackId, val.index, val.id),
            Self::TrackTranslateCodec(val) => (EbmlId::TrackTranslateCodec, val.index, val.id),
            Self::TrackTranslateEditionUid(val) => (EbmlId::TrackTranslateEditionUid, val.index, val.id),
        }
    }

    /// Write this child's frame.
    #[verifier::rlimit(60)]
    #[verifier::spinoff_prover]
    pub fn write_el(&self, w: &mut Vec<u8>) -> (r: Result<usize, MatroskaError>)
        ensures
            r is Ok <==> el_ok(self.model()),
            r is Ok ==> final(w)@ == old(w)@ + el_bytes(self.model())
                && r->Ok_0 == el_bytes(self.model()).len(),
            r is Err ==> final(w)@ == old(w)@ && r->Err_0 is InvalidVarIntMoreThanVintMax,
    {
        match self {
            Self::TrackTranslateTrackId(val) => crate::io::write_el_bin(w, 0x66A5, (*val.v).as_slice()),
            Self::TrackTranslateCodec(val) => crate::io::write_el_uint(w, 0x66BF, &*val.v),
            Self::TrackTranslateEditionUid(val) => crate::io::write_el_uint(w, 0x66FC, &*val.v),
        }
    }
}

impl EbmlField for TrackTranslateFields {
    open spec fn model(&self) -> FieldModel {
        match self {
            Self::TrackTranslateTrackId(e) => FieldModel::Bin { id: 0x66A5, idx: e.index, key: e.id, b: (*e.v)@ },
            Self::TrackTranslateCodec(e) => FieldModel::UInt { id: 0x66BF, idx: e.index, key: e.id, v: *e.v },
            Self::TrackTranslateEditionUid(e) => FieldModel::UInt { id: 0x66FC, idx: e.index, key: e.id, v: *e.v },
        }
    }

    fn sort_key(&self) -> (r: (Option<u64>, u64)) {
        match self {
            Self::TrackTranslateTrackId(e) => (e.index, e.id),
            Self::TrackTranslateCodec(e) => (e.index, e.id),
            Self::TrackTranslateEditionUid(e) => (e.index, e.id),
        }
    }
}

/// The `Video` structural element.
#[derive(Debug)]
pub struct Video {
    pub size: u64,
    pub flag_interlaced: Ebml<u64>,
    pub field_order: Ebml<u64>,
    pub stereo_mode: Ebml<u64>,
    pub alpha_mode: Ebml<u64>,
    pub old_stereo_mode: Option<Ebml<u64>>,
    pub pixel_width: Ebml<u64>,
    pub pixel_height: Ebml<u64>,
    pub pixel_crop_bottom: Ebml<u64>,
    pub pixel_crop_top: Ebml<u64>,
    pub pixel_crop_left: Ebml<u64>,
    pub pixel_crop_right: Ebml<u64>,
    pub display_width: Option<Ebml<u64>>,
    pub display_height: Option<Ebml<u64>>,
    pub display_unit: Ebml<u64>,
    pub aspect_ratio_type: Option<Ebml<u64>>,
    pub uncompressed_four_cc: Option<Ebml<Vec<u8>>>,
    /// A float on the wire, held as its IEEE-754 f64 bit pattern; convert
    /// with `f64::to_bits` and `f64::from_bits`.
    pub gamma_value: Option<Ebml<u64>>,
    /// A float on the wire, held as its IEEE-754 f64 bit pattern; convert
    /// with `f64::to_bits` and `f64::from_bits`.
    pub frame_rate: Option<Ebml<u64>>,
    pub colour: Option<Ebml<Colour>>,
    pub projection: Option<Ebml<Projection>>,
}

impl Video {
    /// The models of the children, in declaration order.
    #[verifier::opaque]
    pub open spec fn raw_model(self) -> Seq<FieldModel>
    {
        seq![FieldModel::UInt { id: 0x9A, idx: self.flag_interlaced.index, key: self.flag_interlaced.id, v: *self.flag_interlaced.v }]
            + seq![FieldModel::UInt { id: 0x9D, idx: self.field_order.index, key: self.field_order.id, v: *self.field_order.v }]
            + seq![FieldModel::UInt { id: 0x53B8, idx: self.stereo_mode.index, key: self.stereo_mode.id, v: *self.stereo_mode.v }]
            + seq![FieldModel::UInt { id: 0x53C0, idx: self.alpha_mode.index, key: self.alpha_mode.id, v: *self.alpha_mode.v }]
            + (match self.old_stereo_mode { Some(e) => seq![FieldModel::UInt { id: 0x53B9, idx: e.index, key: e.id, v: *e.v }], None => Seq::empty() })
            + seq![FieldModel::UInt { id: 0xB0, idx: self.pixel_width.index, key: self.pixel_width.id, v: *self.pixel_width.v }]
            + seq![FieldModel::UInt { id: 0xBA, idx: self.pixel_height.index, key: self.pixel_height.id, v: *self.pixel_height.v }]
            + seq![FieldModel::UInt { id: 0x54AA, idx: self.pixel_crop_bottom.index, key: self.pixel_crop_bottom.id, v: *self.pixel_crop_bottom.v }]
            + seq![FieldModel::UInt { id: 0x54BB, idx: self.pixel_crop_top.index, key: self.pixel_crop_top.id, v: *self.pixel_crop_top.v }]
            + seq![FieldModel::UInt { id: 0x54CC, idx: self.pixel_crop_left.index, key: self.pixel_crop_left.id, v: *self.pixel_crop_left.v }]
            + seq![FieldModel::UInt { id: 0x54DD, idx: self.pixel_crop_right.index, key: self.pixel_crop_right.id, v: *self.pixel_crop_right.v }]
            + (match self.display_width { Some(e) => seq![FieldModel::UInt { id: 0x54B0, idx: e.index, key: e.id, v: *e.v }], None => Seq::empty() })
            + (match self.display_height { Some(e) => seq![FieldModel::UInt { id: 0x54BA, idx: e.index, key: e.id, v: *e.v }], None => Seq::empty() })
            + seq![FieldModel::UInt { id: 0x54B2, idx: self.display_unit.index, key: self.display_unit.id, v: *self.display_unit.v }]
            + (match self.aspect_ratio_type { Some(e) => seq![FieldModel::UInt { id: 0x54B3, idx: e.index, key: e.id, v: *e.v }], None => Seq::empty() })
            + (match self.uncompressed_four_cc { Some(e) => seq![FieldModel::Bin { id: 0x2EB524, idx: e.index, key: e.id, b: (*e.v)@ }], None => Seq::empty() })
            + (match self.gamma_value { Some(e) => seq![FieldModel::Flt64 { id: 0x2FB523, idx: e.index, key: e.id, bits: *e.v }], None => Seq::empty() })
            + (match self.frame_rate { Some(e) => seq![FieldModel::Flt64 { id: 0x2383E3, idx: e.index, key: e.id, bits: *e.v }], None => Seq::empty() })
            + (match self.colour { Some(e) => seq![FieldModel::Node { id: 0x55B0, idx: e.index, key: e.id, children: (*e.v).model() }], None => Seq::empty() })
            + (match self.projection { Some(e) => seq![FieldModel::Node { id: 0x7670, idx: e.index, key: e.id, children: (*e.v).model() }], None => Seq::empty() })
    }

    /// The children in emission order.
    #[verifier::opaque]
    pub open spec fn model(self) -> Seq<FieldModel>
    {
        sort_fields_spec(self.raw_model())
    }

    /// Append the `flag_interlaced` child values to a field run.
    #[verifier::loop_isolation(false)]
    fn push_flag_interlaced(&self, v: &mut Vec<VideoFields>)
        ensures
            models_of::<VideoFields>(final(v)@) == models_of::<VideoFields>(old(v)@) + seq![FieldModel::UInt { id: 0x9A, idx: self.flag_interlaced.index, key: self.flag_interlaced.id, v: *self.flag_interlaced.v }],
    {
        let ghost prevv = v@;
        v.push(VideoFields::FlagInterlaced(crate::dup_ebml_copy(&self.flag_interlaced)));
        proof {
            assert(models_of::<VideoFields>(v@) =~= models_of::<VideoFields>(prevv).push(v@.last().model()));
            assert(models_of::<VideoFields>(prevv).push(v@.last().model()) =~= models_of::<VideoFields>(prevv) + seq![FieldModel::UInt { id: 0x9A, idx: self.flag_interlaced.index, key: self.flag_interlaced.id, v: *self.flag_interlaced.v }]);
        }
    }

    /// Append the `field_order` child values to a field run.
    #[verifier::loop_isolation(false)]
    fn push_field_order(&self, v: &mut Vec<VideoFields>)
        ensures
            models_of::<VideoFields>(final(v)@) == models_of::<VideoFields>(old(v)@) + seq![FieldModel::UInt { id: 0x9D, idx: self.field_order.index, key: self.field_order.id, v: *self.field_order.v }],
    {
        let ghost prevv = v@;
        v.push(VideoFields::FieldOrder(crate::dup_ebml_copy(&self.field_order)));
        proof {
            assert(models_of::<VideoFields>(v@) =~= models_of::<VideoFields>(prevv).push(v@.last().model()));
            assert(models_of::<VideoFields>(prevv).push(v@.last().model()) =~= models_of::<VideoFields>(prevv) + seq![FieldModel::UInt { id: 0x9D, idx: self.field_order.index, key: self.field_order.id, v: *self.field_order.v }]);
        }
    }

    /// Append the `stereo_mode` child values to a field run.
    #[verifier::loop_isolation(false)]
    fn push_stereo_mode(&self, v: &mut Vec<VideoFields>)
        ensures
            models_of::<VideoFields>(final(v)@) == models_of::<VideoFields>(old(v)@) + seq![FieldModel::UInt { id: 0x53B8, idx: self.stereo_mode.index, key: self.stereo_mode.id, v: *self.stereo_mode.v }],
    {
        let ghost prevv = v@;
        v.push(VideoFields::StereoMode(crate::dup_ebml_copy(&self.stereo_mode)));
        proof {
            assert(models_of::<VideoFields>(v@) =~= models_of::<VideoFields>(prevv).push(v@.last().model()));
            assert(models_of::<VideoFields>(prevv).push(v@.last().model()) =~= models_of::<VideoFields>(prevv) + seq![FieldModel::UInt { id: 0x53B8, idx: self.stereo_mode.index, key: self.stereo_mode.id, v: *self.stereo_mode.v }]);
        }
    }

    /// Append the `alpha_mode` child values to a field run.
    #[verifier::loop_isolation(false)]
    fn push_alpha_mode(&self, v: &mut Vec<VideoFields>)
        ensures
            models_of::<VideoFields>(final(v)@) == models_of::<VideoFields>(old(v)@) + seq![FieldModel::UInt { id: 0x53C0, idx: self.alpha_mode.index, key: self.alpha_mode.id, v: *self.alpha_mode.v }],
    {
        let ghost prevv = v@;
        v.push(VideoFields::AlphaMode(crate::dup_ebml_copy(&self.alpha_mode)));
        proof {
            assert(models_of::<VideoFields>(v@) =~= models_of::<VideoFields>(prevv).push(v@.last().model()));
            assert(models_of::<VideoFields>(prevv).push(v@.last().model()) =~= models_of::<VideoFields>(prevv) + seq![FieldModel::UInt { id: 0x53C0, idx: self.alpha_mode.index, key: self.alpha_mode.id, v: *self.alpha_mode.v }]);
        }
    }

    /// Append the `old_stereo_mode` child values to a field run.
    #[verifier::loop_isolation(false)]
    fn push_old_stereo_mode(&self, v: &mut Vec<VideoFields>)
        ensures
            models_of::<VideoFields>(final(v)@) == models_of::<VideoFields>(old(v)@) + (match &self.old_stereo_mode { Some(e) => seq![FieldModel::UInt { id: 0x53B9, idx: e.index, key: e.id, v: *e.v }], None => Seq::empty() }),
    {
        match &self.old_stereo_mode {
            Some(e) => {
                let ghost prevv = v@;
                v.push(VideoFields::OldStereoMode(crate::dup_ebml_copy(e)));
                proof {
                    assert(models_of::<VideoFields>(v@) =~= models_of::<VideoFields>(prevv).push(v@.last().model()));
                    assert(models_of::<VideoFields>(prevv).push(v@.last().model()) =~= models_of::<VideoFields>(prevv) + (match &self.old_stereo_mode { Some(e) => seq![FieldModel::UInt { id: 0x53B9, idx: e.index, key: e.id, v: *e.v }], None => Seq::empty() }));
                }
            },
            None => {
                proof {
                    assert(models_of::<VideoFields>(v@) =~= models_of::<VideoFields>(v@) + (match &self.old_stereo_mode { Some(e) => seq![FieldModel::UInt { id: 0x53B9, idx: e.index, key: e.id, v: *e.v }], None => Seq::empty() }));
                }
            },
        }
    }

    /// Append the `pixel_width` child values to a field run.
    #[verifier::loop_isolation(false)]
    fn push_pixel_width(&self, v: &mut Vec<VideoFields>)
        ensures
            models_of::<VideoFields>(final(v)@) == models_of::<VideoFields>(old(v)@) + seq![FieldModel::UInt { id: 0xB0, idx: self.pixel_width.index, key: self.pixel_width.id, v: *self.pixel_width.v }],
    {
        let ghost prevv = v@;
        v.push(VideoFields::PixelWidth(crate::dup_ebml_copy(&self.pixel_width)));
        proof {
            assert(models_of::<VideoFields>(v@) =~= models_of::<VideoFields>(prevv).push(v@.last().model()));
            assert(models_of::<VideoFields>(prevv).push(v@.last().model()) =~= models_of::<VideoFields>(prevv) + seq![FieldModel::UInt { id: 0xB0, idx: self.pixel_width.index, key: self.pixel_width.id, v: *self.pixel_width.v }]);
        }
    }

    /// Append the `pixel_height` child values to a field run.
    #[verifier::loop_isolation(false)]
    fn push_pixel_height(&self, v: &mut Vec<VideoFields>)
        ensures
            models_of::<VideoFields>(final(v)@) == models_of::<VideoFields>(old(v)@) + seq![FieldModel::UInt { id: 0xBA, idx: self.pixel_height.index, key: self.pixel_height.id, v: *self.pixel_height.v }],
    {
        let ghost prevv = v@;
        v.push(VideoFields::PixelHeight(crate::dup_ebml_copy(&self.pixel_height)));
        proof {
            assert(models_of::<VideoFields>(v@) =~= models_of::<VideoFields>(prevv).push(v@.last().model()));
            assert(models_of::<VideoFields>(prevv).push(v@.last().model()) =~= models_of::<VideoFields>(prevv) + seq![FieldModel::UInt { id: 0xBA, idx: self.pixel_height.index, key: self.pixel_height.id, v: *self.pixel_height.v }]);
        }
    }

    /// Append the `pixel_crop_bottom` child values to a field run.
    #[verifier::loop_isolation(false)]
    fn push_pixel_crop_bottom(&self, v: &mut Vec<VideoFields>)
        ensures
            models_of::<VideoFields>(final(v)@) == models_of::<VideoFields>(old(v)@) + seq![FieldModel::UInt { id: 0x54AA, idx: self.pixel_crop_bottom.index, key: self.pixel_crop_bottom.id, v: *self.pixel_crop_bottom.v }],
    {
        let ghost prevv = v@;
        v.push(VideoFields::PixelCropBottom(crate::dup_ebml_copy(&self.pixel_crop_bottom)));
        proof {
            assert(models_of::<VideoFields>(v@) =~= models_of::<VideoFields>(prevv).push(v@.last().model()));
            assert(models_of::<VideoFields>(prevv).push(v@.last().model()) =~= models_of::<VideoFields>(prevv) + seq![FieldModel::UInt { id: 0x54AA, idx: self.pixel_crop_bottom.index, key: self.pixel_crop_bottom.id, v: *self.pixel_crop_bottom.v }]);
        }
    }

    /// Append the `pixel_crop_top` child values to a field run.
    #[verifier::loop_isolation(false)]
    fn push_pixel_crop_top(&self, v: &mut Vec<VideoFields>)
        ensures
            models_of::<VideoFields>(final(v)@) == models_of::<VideoFields>(old(v)@) + seq![FieldModel::UInt { id: 0x54BB, idx: self.pixel_crop_top.index, key: self.pixel_crop_top.id, v: *self.pixel_crop_top.v }],
    {
        let ghost prevv = v@;
        v.push(VideoFields::PixelCropTop(crate::dup_ebml_copy(&self.pixel_crop_top)));
        proof {
            assert(models_of::<VideoFields>(v@) =~= models_of::<VideoFields>(prevv).push(v@.last().model()));
            assert(models_of::<VideoFields>(prevv).push(v@.last().model()) =~= models_of::<VideoFields>(prevv) + seq![FieldModel::UInt { id: 0x54BB, idx: self.pixel_crop_top.index, key: self.pixel_crop_top.id, v: *self.pixel_crop_top.v }]);
        }
    }

    /// Append the `pixel_crop_left` child values to a field run.
    #[verifier::loop_isolation(false)]
    fn push_pixel_crop_left(&self, v: &mut Vec<VideoFields>)
        ensures
            models_of::<VideoFields>(final(v)@) == models_of::<VideoFields>(old(v)@) + seq![FieldModel::UInt { id: 0x54CC, idx: self.pixel_crop_left.index, key: self.pixel_crop_left.id, v: *self.pixel_crop_left.v }],
    {
        let ghost prevv = v@;
        v.push(VideoFields::PixelCropLeft(crate::dup_ebml_copy(&self.pixel_crop_left)));
        proof {
            assert(models_of::<VideoFields>(v@) =~= models_of::<VideoFields>(prevv).push(v@.last().model()));
            assert(models_of::<VideoFields>(prevv).push(v@.last().model()) =~= models_of::<VideoFields>(prevv) + seq![FieldModel::UInt { id: 0x54CC, idx: self.pixel_crop_left.index, key: self.pixel_crop_left.id, v: *self.pixel_crop_left.v }]);
        }
    }

    /// Append the `pixel_crop_right` child values to a field run.
    #[verifier::loop_isolation(false)]
    fn push_pixel_crop_right(&self, v: &mut Vec<VideoFields>)
        ensures
            models_of::<VideoFields>(final(v)@) == models_of::<VideoFields>(old(v)@) + seq![FieldModel::UInt { id: 0x54DD, idx: self.pixel_crop_right.index, key: self.pixel_crop_right.id, v: *self.pixel_crop_right.v }],
    {
        let ghost prevv = v@;
        v.push(VideoFields::PixelCropRight(crate::dup_ebml_copy(&self.pixel_crop_right)));
        proof {
            assert(models_of::<VideoFields>(v@) =~= models_of::<VideoFields>(prevv).push(v@.last().model()));
            assert(models_of::<VideoFields>(prevv).push(v@.last().model()) =~= models_of::<VideoFields>(prevv) + seq![FieldModel::UInt { id: 0x54DD, idx: self.pixel_crop_right.index, key: self.pixel_crop_right.id, v: *self.pixel_crop_right.v }]);
        }
    }

    /// Append the `display_width` child values to a field run.
    #[verifier::loop_isolation(false)]
    fn push_display_width(&self, v: &mut Vec<VideoFields>)
        ensures
            models_of::<VideoFields>(final(v)@) == models_of::<VideoFields>(old(v)@) + (match &self.display_width { Some(e) => seq![FieldModel::UInt { id: 0x54B0, idx: e.index, key: e.id, v: *e.v }], None => Seq::empty() }),
    {
        match &self.display_width {
            Some(e) => {
                let ghost prevv = v@;
                v.push(VideoFields::DisplayWidth(crate::dup_ebml_copy(e)));
                proof {
                    assert(models_of::<VideoFields>(v@) =~= models_of::<VideoFields>(prevv).push(v@.last().model()));
                    assert(models_of::<VideoFields>(prevv).push(v@.last().model()) =~= models_of::<VideoFields>(prevv) + (match &self.display_width { Some(e) => seq![FieldModel::UInt { id: 0x54B0, idx: e.index, key: e.id, v: *e.v }], None => Seq::empty() }));
                }
            },
            None => {
                proof {
                    assert(models_of::<VideoFields>(v@) =~= models_of::<VideoFields>(v@) + (match &self.display_width { Some(e) => seq![FieldModel::UInt { id: 0x54B0, idx: e.index, key: e.id, v: *e.v }], None => Seq::empty() }));
                }
            },
        }
    }

    /// Append the `display_height` child values to a field run.
    #[verifier::loop_isolation(false)]
    fn push_display_height(&self, v: &mut Vec<VideoFields>)
        ensures
            models_of::<VideoFields>(final(v)@) == models_of::<VideoFields>(old(v)@) + (match &self.display_height { Some(e) => seq![FieldModel::UInt { id: 0x54BA, idx: e.index, key: e.id, v: *e.v }], None => Seq::empty() }),
    {
        match &self.display_height {
            Some(e) => {
                let ghost prevv = v@;
                v.push(VideoFields::DisplayHeight(crate::dup_ebml_copy(e)));
                proof {
                    assert(models_of::<VideoFields>(v@) =~= models_of::<VideoFields>(prevv).push(v@.last().model()));
                    assert(models_of::<VideoFields>(prevv).push(v@.last().model()) =~= models_of::<VideoFields>(prevv) + (match &self.display_height { Some(e) => seq![FieldModel::UInt { id: 0x54BA, idx: e.index, key: e.id, v: *e.v }], None => Seq::empty() }));
                }
            },
            None => {
                proof {
                    assert(models_of::<VideoFields>(v@) =~= models_of::<VideoFields>(v@) + (match &self.display_height { Some(e) => seq![FieldModel::UInt { id: 0x54BA, idx: e.index, key: e.id, v: *e.v }], None => Seq::empty() }));
                }
            },
        }
    }

    /// Append the `display_unit` child values to a field run.
    #[verifier::loop_isolation(false)]
    fn push_display_unit(&self, v: &mut Vec<VideoFields>)
        ensures
            models_of::<VideoFields>(final(v)@) == models_of::<VideoFields>(old(v)@) + seq![FieldModel::UInt { id: 0x54B2, idx: self.display_unit.index, key: self.display_unit.id, v: *self.display_unit.v }],
    {
        let ghost prevv = v@;
        v.push(VideoFields::DisplayUnit(crate::dup_ebml_copy(&self.display_unit)));
        proof {
            assert(models_of::<VideoFields>(v@) =~= models_of::<VideoFields>(prevv).push(v@.last().model()));
            assert(models_of::<VideoFields>(prevv).push(v@.last().model()) =~= models_of::<VideoFields>(prevv) + seq![FieldModel::UInt { id: 0x54B2, idx: self.display_unit.index, key: self.display_unit.id, v: *self.display_unit.v }]);
        }
    }

    /// Append the `aspect_ratio_type` child values to a field run.
    #[verifier::loop_isolation(false)]
    fn push_aspect_ratio_type(&self, v: &mut Vec<VideoFields>)
        ensures
            models_of::<VideoFields>(final(v)@) == models_of::<VideoFields>(old(v)@) + (match &self.aspect_ratio_type { Some(e) => seq![FieldModel::UInt { id: 0x54B3, idx: e.index, key: e.id, v: *e.v }], None => Seq::empty() }),
    {
        match &self.aspect_ratio_type {
            Some(e) => {
                let ghost prevv = v@;
                v.push(VideoFields::AspectRatioType(crate::dup_ebml_copy(e)));
                proof {
                    assert(models_of::<VideoFields>(v@) =~= models_of::<VideoFields>(prevv).push(v@.last().model()));
                    assert(models_of::<VideoFields>(prevv).push(v@.last().model()) =~= models_of::<VideoFields>(prevv) + (match &self.aspect_ratio_type { Some(e) => seq![FieldModel::UInt { id: 0x54B3, idx: e.index, key: e.id, v: *e.v }], None => Seq::empty() }));
                }
            },
            None => {
                proof {
                    assert(models_of::<VideoFields>(v@) =~= models_of::<VideoFields>(v@) + (match &self.aspect_ratio_type { Some(e) => seq![FieldModel::UInt { id: 0x54B3, idx: e.index, key: e.id, v: *e.v }], None => Seq::empty() }));
                }
            },
        }
    }

    /// Append the `uncompressed_four_cc` child values to a field run.
    #[verifier::loop_isolation(false)]
    fn push_uncompressed_four_cc(&self, v: &mut Vec<VideoFields>)
        ensures
            models_of::<VideoFields>(final(v)@) == models_of::<VideoFields>(old(v)@) + (match &self.uncompressed_four_cc { Some(e) => seq![FieldModel::Bin { id: 0x2EB524, idx: e.index, key: e.id, b: (*e.v)@ }], None => Seq::empty() }),
    {
        match &self.uncompressed_four_cc {
            Some(e) => {
                let ghost prevv = v@;
                v.push(VideoFields::UncompressedFourCc(crate::dup_ebml_bytes(e)));
                proof {
                    assert(models_of::<VideoFields>(v@) =~= models_of::<VideoFields>(prevv).push(v@.last().model()));
                    assert(models_of::<VideoFields>(prevv).push(v@.last().model()) =~= models_of::<VideoFields>(prevv) + (match &self.uncompressed_four_cc { Some(e) => seq![FieldModel::Bin { id: 0x2EB524, idx: e.index, key: e.id, b: (*e.v)@ }], None => Seq::empty() }));
                }
            },
            None => {
                proof {
                    assert(models_of::<VideoFields>(v@) =~= models_of::<VideoFields>(v@) + (match &self.uncompressed_four_cc { Some(e) => seq![FieldModel::Bin { id: 0x2EB524, idx: e.index, key: e.id, b: (*e.v)@ }], None => Seq::empty() }));
                }
            },
        }
    }

    /// Append the `gamma_value` child values to a field run.
    #[verifier::loop_isolation(false)]
    fn push_gamma_value(&self, v: &mut Vec<VideoFields>)
        ensures
            models_of::<VideoFields>(final(v)@) == models_of::<VideoFields>(old(v)@) + (match &self.gamma_value { Some(e) => seq![FieldModel::Flt64 { id: 0x2FB523, idx: e.index, key: e.id, bits: *e.v }], None => Seq::empty() }),
    {
        match &self.gamma_value {
            Some(e) => {
                let ghost prevv = v@;
                v.push(VideoFields::GammaValue(crate::dup_ebml_copy(e)));
                proof {
                    assert(models_of::<VideoFields>(v@) =~= models_of::<VideoFields>(prevv).push(v@.last().model()));
                    assert(models_of::<VideoFields>(prevv).push(v@.last().model()) =~= models_of::<VideoFields>(prevv) + (match &self.gamma_value { Some(e) => seq![FieldModel::Flt64 { id: 0x2FB523, idx: e.index, key: e.id, bits: *e.v }], None => Seq::empty() }));
                }
            },
            None => {
                proof {
                    assert(models_of::<VideoFields>(v@) =~= models_of::<VideoFields>(v@) + (match &self.gamma_value { Some(e) => seq![FieldModel::Flt64 { id: 0x2FB523, idx: e.index, key: e.id, bits: *e.v }], None => Seq::empty() }));
                }
            },
        }
    }

    /// Append the `frame_rate` child values to a field run.
    #[verifier::loop_isolation(false)]
    fn push_frame_rate(&self, v: &mut Vec<VideoFields>)
        ensures
            models_of::<VideoFields>(final(v)@) == models_of::<VideoFields>(old(v)@) + (match &self.frame_rate { Some(e) => seq![FieldModel::Flt64 { id: 0x2383E3, idx: e.index, key: e.id, bits: *e.v }], None => Seq::empty() }),
    {
        match &self.frame_rate {
            Some(e) => {
                let ghost prevv = v@;
                v.push(VideoFields::FrameRate(crate::dup_ebml_copy(e)));
                proof {
                    assert(models_of::<VideoFields>(v@) =~= models_of::<VideoFields>(prevv).push(v@.last().model()));
                    assert(models_of::<VideoFields>(prevv).push(v@.last().model()) =~= models_of::<VideoFields>(prevv) + (match &self.frame_rate { Some(e) => seq![FieldModel::Flt64 { id: 0x2383E3, idx: e.index, key: e.id, bits: *e.v }], None => Seq::empty() }));
                }
            },
            None => {
                proof {
                    assert(models_of::<VideoFields>(v@) =~= models_of::<VideoFields>(v@) + (match &self.frame_rate { Some(e) => seq![FieldModel::Flt64 { id: 0x2383E3, idx: e.index, key: e.id, bits: *e.v }], None => Seq::empty() }));
                }
            },
        }
    }

    /// Append the `colour` child values to a field run.
    #[verifier::loop_isolation(false)]
    fn push_colour(&self, v: &mut Vec<VideoFields>)
        ensures
            models_of::<VideoFields>(final(v)@) == models_of::<VideoFields>(old(v)@) + (match &self.colour { Some(e) => seq![FieldModel::Node { id: 0x55B0, idx: e.index, key: e.id, children: (*e.v).model() }], None => Seq::empty() }),
    {
        match &self.colour {
            Some(e) => {
                let d = (&*e.v).duplicate();
                proof {
                    reveal(Colour::model);
                    assert(d.model() == (*e.v).model());
                }
                let ghost prevv = v@;
                v.push(VideoFields::Colour(Ebml { index: e.index, v: Box::new(d), id: e.id }));
                proof {
                    assert(models_of::<VideoFields>(v@) =~= models_of::<VideoFields>(prevv).push(v@.last().model()));
                    assert(models_of::<VideoFields>(prevv).push(v@.last().model()) =~= models_of::<VideoFields>(prevv) + (match &self.colour { Some(e) => seq![FieldModel::Node { id: 0x55B0, idx: e.index, key: e.id, children: (*e.v).model() }], None => Seq::empty() }));
                }
            },
            None => {
                proof {
                    assert(models_of::<VideoFields>(v@) =~= models_of::<VideoFields>(v@) + (match &self.colour { Some(e) => seq![FieldModel::Node { id: 0x55B0, idx: e.index, key: e.id, children: (*e.v).model() }], None => Seq::empty() }));
                }
            },
        }
    }

    /// Append the `projection` child values to a field run.
    #[verifier::loop_isolation(false)]
    fn push_projection(&self, v: &mut Vec<VideoFields>)
        ensures
            models_of::<VideoFields>(final(v)@) == models_of::<VideoFields>(old(v)@) + (match &self.projection { Some(e) => seq![FieldModel::Node { id: 0x7670, idx: e.index, key: e.id, children: (*e.v).model() }], None => Seq::empty() }),
    {
        match &self.projection {
            Some(e) => {
                let d = (&*e.v).duplicate();
                proof {
                    reveal(Projection::model);
                    assert(d.model() == (*e.v).model());
                }
                let ghost prevv = v@;
                v.push(VideoFields::Projection(Ebml { index: e.index, v: Box::new(d), id: e.id }));
                proof {
                    assert(models_of::<VideoFields>(v@) =~= models_of::<VideoFields>(prevv).push(v@.last().model()));
                    assert(models_of::<VideoFields>(prevv).push(v@.last().model()) =~= models_of::<VideoFields>(prevv) + (match &self.projection { Some(e) => seq![FieldModel::Node { id: 0x7670, idx: e.index, key: e.id, children: (*e.v).model() }], None => Seq::empty() }));
                }
            },
            None => {
                proof {
                    assert(models_of::<VideoFields>(v@) =~= models_of::<VideoFields>(v@) + (match &self.projection { Some(e) => seq![FieldModel::Node { id: 0x7670, idx: e.index, key: e.id, children: (*e.v).model() }], None => Seq::empty() }));
                }
            },
        }
    }

    /// The present children, each paired with its ID, in emission order.
    #[verifier::rlimit(100)]
    #[verifier::spinoff_prover]
    pub fn elements(&self) -> (r: Vec<VideoFields>)
        ensures
            models_of::<VideoFields>(r@) == self.model(),
    {
        let mut v: Vec<VideoFields> = Vec::new();
        proof {
            assert(models_of::<VideoFields>(v@) =~= Seq::<FieldModel>::empty());
        }
        self.push_flag_interlaced(&mut v);
        self.push_field_order(&mut v);
        self.push_stereo_mode(&mut v);
        self.push_alpha_mode(&mut v);
        self.push_old_stereo_mode(&mut v);
        self.push_pixel_width(&mut v);
        self.push_pixel_height(&mut v);
        self.push_pixel_crop_bottom(&mut v);
        self.push_pixel_crop_top(&mut v);
        self.push_pixel_crop_left(&mut v);
        self.push_pixel_crop_right(&mut v);
        self.push_display_width(&mut v);
        self.push_display_height(&mut v);
        self.push_display_unit(&mut v);
        self.push_aspect_ratio_type(&mut v);
        self.push_uncompressed_four_cc(&mut v);
        self.push_gamma_value(&mut v);
        self.push_frame_rate(&mut v);
        self.push_colour(&mut v);
        self.push_projection(&mut v);
        proof {
            reveal(Video::raw_model);
            reveal(Video::model);
            assert(Seq::<FieldModel>::empty() + seq![FieldModel::UInt { id: 0x9A, idx: self.flag_interlaced.index, key: self.flag_interlaced.id, v: *self.flag_interlaced.v }] =~= seq![FieldModel::UInt { id: 0x9A, idx: self.flag_interlaced.index, key: self.flag_interlaced.id, v: *self.flag_interlaced.v }]);
            assert(models_of::<VideoFields>(v@) == self.raw_model());
        }
        sort_fields(v)
    }

    /// A deep copy of the `flag_interlaced` slot.
    #[verifier::loop_isolation(false)]
    fn dup_flag_interlaced(&self) -> (r: Ebml<u64>)
        ensures
            seq![FieldModel::UInt { id: 0x9A, idx: r.index, key: r.id, v: *r.v }] == seq![FieldModel::UInt { id: 0x9A, idx: self.flag_interlaced.index, key: self.flag_interlaced.id, v: *self.flag_interlaced.v }],
    {
        crate::dup_ebml_copy(&self.flag_interlaced)
    }

    /// A deep copy of the `field_order` slot.
    #[verifier::loop_isolation(false)]
    fn dup_field_order(&self) -> (r: Ebml<u64>)
        ensures
            seq![FieldModel::UInt { id: 0x9D, idx: r.index, key: r.id, v: *r.v }] == seq![FieldModel::UInt { id: 0x9D, idx: self.field_order.index, key: self.field_order.id, v: *self.field_order.v }],
    {
        crate::dup_ebml_copy(&self.field_order)
    }

    /// A deep copy of the `stereo_mode` slot.
    #[verifier::loop_isolation(false)]
    fn dup_stereo_mode(&self) -> (r: Ebml<u64>)
        ensures
            seq![FieldModel::UInt { id: 0x53B8, idx: r.index, key: r.id, v: *r.v }] == seq![FieldModel::UInt { id: 0x53B8, idx: self.stereo_mode.index, key: self.stereo_mode.id, v: *self.stereo_mode.v }],
    {
        crate::dup_ebml_copy(&self.stereo_mode)
    }

    /// A deep copy of the `alpha_mode` slot.
    #[verifier::loop_isolation(false)]
    fn dup_alpha_mode(&self) -> (r: Ebml<u64>)
        ensures
            seq![FieldModel::UInt { id: 0x53C0, idx: r.index, key: r.id, v: *r.v }] == seq![FieldModel::UInt { id: 0x53C0, idx: self.alpha_mode.index, key: self.alpha_mode.id, v: *self.alpha_mode.v }],
    {
        crate::dup_ebml_copy(&self.alpha_mode)
    }

    /// A deep copy of the `old_stereo_mode` slot.
    #[verifier::loop_isolation(false)]
    fn dup_old_stereo_mode(&self) -> (r: Option<Ebml<u64>>)
        ensures
            (match &r { Some(e) => seq![FieldModel::UInt { id: 0x53B9, idx: e.index, key: e.id, v: *e.v }], None => Seq::empty() }) == (match &self.old_stereo_mode { Some(e) => seq![FieldModel::UInt { id: 0x53B9, idx: e.index, key: e.id, v: *e.v }], None => Seq::empty() }),
    {
        match &self.old_stereo_mode {
            Some(e) => Some(crate::dup_ebml_copy(e)),
            None => None,
        }
    }

    /// A deep copy of the `pixel_width` slot.
    #[verifier::loop_isolation(false)]
    fn dup_pixel_width(&self) -> (r: Ebml<u64>)
        ensures
            seq![FieldModel::UInt { id: 0xB0, idx: r.index, key: r.id, v: *r.v }] == seq![FieldModel::UInt { id: 0xB0, idx: self.pixel_width.index, key: self.pixel_width.id, v: *self.pixel_width.v }],
    {
        crate::dup_ebml_copy(&self.pixel_width)
    }

    /// A deep copy of the `pixel_height` slot.
    #[verifier::loop_isolation(false)]
    fn dup_pixel_height(&self) -> (r: Ebml<u64>)
        ensures
            seq![FieldModel::UInt { id: 0xBA, idx: r.index, key: r.id, v: *r.v }] == seq![FieldModel::UInt { id: 0xBA, idx: self.pixel_height.index, key: self.pixel_height.id, v: *self.pixel_height.v }],
    {
        crate::dup_ebml_copy(&self.pixel_height)
    }

    /// A deep copy of the `pixel_crop_bottom` slot.
    #[verifier::loop_isolation(false)]
    fn dup_pixel_crop_bottom(&self) -> (r: Ebml<u64>)
        ensures
            seq![FieldModel::UInt { id: 0x54AA, idx: r.index, key: r.id, v: *r.v }] == seq![FieldModel::UInt { id: 0x54AA, idx: self.pixel_crop_bottom.index, key: self.pixel_crop_bottom.id, v: *self.pixel_crop_bottom.v }],
    {
        crate::dup_ebml_copy(&self.pixel_crop_bottom)
    }

    /// A deep copy of the `pixel_crop_top` slot.
    #[verifier::loop_isolation(false)]
    fn dup_pixel_crop_top(&self) -> (r: Ebml<u64>)
        ensures
            seq![FieldModel::UInt { id: 0x54BB, idx: r.index, key: r.id, v: *r.v }] == seq![FieldModel::UInt { id: 0x54BB, idx: self.pixel_crop_top.index, key: self.pixel_crop_top.id, v: *self.pixel_crop_top.v }],
    {
        crate::dup_ebml_copy(&self.pixel_crop_top)
    }

    /// A deep copy of the `pixel_crop_left` slot.
    #[verifier::loop_isolation(false)]
    fn dup_pixel_crop_left(&self) -> (r: Ebml<u64>)
        ensures
            seq![FieldModel::UInt { id: 0x54CC, idx: r.index, key: r.id, v: *r.v }] == seq![FieldModel::UInt { id: 0x54CC, idx: self.pixel_crop_left.index, key: self.pixel_crop_left.id, v: *self.pixel_crop_left.v }],
    {
        crate::dup_ebml_copy(&self.pixel_crop_left)
    }

    /// A deep copy of the `pixel_crop_right` slot.
    #[verifier::loop_isolation(false)]
    fn dup_pixel_crop_right(&self) -> (r: Ebml<u64>)
        ensures
            seq![FieldModel::UInt { id: 0x54DD, idx: r.index, key: r.id, v: *r.v }] == seq![FieldModel::UInt { id: 0x54DD, idx: self.pixel_crop_right.index, key: self.pixel_crop_right.id, v: *self.pixel_crop_right.v }],
    {
        crate::dup_ebml_copy(&self.pixel_crop_right)
    }

    /// A deep copy of the `display_width` slot.
    #[verifier::loop_isolation(false)]
    fn dup_display_width(&self) -> (r: Option<Ebml<u64>>)
        ensures
            (match &r { Some(e) => seq![FieldModel::UInt { id: 0x54B0, idx: e.index, key: e.id, v: *e.v }], None => Seq::empty() }) == (match &self.display_width { Some(e) => seq![FieldModel::UInt { id: 0x54B0, idx: e.index, key: e.id, v: *e.v }], None => Seq::empty() }),
    {
        match &self.display_width {
            Some(e) => Some(crate::dup_ebml_copy(e)),
            None => None,
        }
    }

    /// A deep copy of the `display_height` slot.
    #[verifier::loop_isolation(false)]
    fn dup_display_height(&self) -> (r: Option<Ebml<u64>>)
        ensures
            (match &r { Some(e) => seq![FieldModel::UInt { id: 0x54BA, idx: e.index, key: e.id, v: *e.v }], None => Seq::empty() }) == (match &self.display_height { Some(e) => seq![FieldModel::UInt { id: 0x54BA, idx: e.index, key: e.id, v: *e.v }], None => Seq::empty() }),
    {
        match &self.display_height {
            Some(e) => Some(crate::dup_ebml_copy(e)),
            None => None,
        }
    }

    /// A deep copy of the `display_unit` slot.
    #[verifier::loop_isolation(false)]
    fn dup_display_unit(&self) -> (r: Ebml<u64>)
        ensures
            seq![FieldModel::UInt { id: 0x54B2, idx: r.index, key: r.id, v: *r.v }] == seq![FieldModel::UInt { id: 0x54B2, idx: self.display_unit.index, key: self.display_unit.id, v: *self.display_unit.v }],
    {
        crate::dup_ebml_copy(&self.display_unit)
    }

    /// A deep copy of the `aspect_ratio_type` slot.
    #[verifier::loop_isolation(false)]
    fn dup_aspect_ratio_type(&self) -> (r: Option<Ebml<u64>>)
        ensures
            (match &r { Some(e) => seq![FieldModel::UInt { id: 0x54B3, idx: e.index, key: e.id, v: *e.v }], None => Seq::empty() }) == (match &self.aspect_ratio_type { Some(e) => seq![FieldModel::UInt { id: 0x54B3, idx: e.index, key: e.id, v: *e.v }], None => Seq::empty() }),
    {
        match &self.aspect_ratio_type {
            Some(e) => Some(crate::dup_ebml_copy(e)),
            None => None,
        }
    }

    /// A deep copy of the `uncompressed_four_cc` slot.
    #[verifier::loop_isolation(false)]
    fn dup_uncompressed_four_cc(&self) -> (r: Option<Ebml<Vec<u8>>>)
        ensures
            (match &r { Some(e) => seq![FieldModel::Bin { id: 0x2EB524, idx: e.index, key: e.id, b: (*e.v)@ }], None => Seq::empty() }) == (match &self.uncompressed_four_cc { Some(e) => seq![FieldModel::Bin { id: 0x2EB524, idx: e.index, key: e.id, b: (*e.v)@ }], None => Seq::empty() }),
    {
        match &self.uncompressed_four_cc {
            Some(e) => Some(crate::dup_ebml_bytes(e)),
            None => None,
        }
    }

    /// A deep copy of the `gamma_value` slot.
    #[verifier::loop_isolation(false)]
    fn dup_gamma_value(&self) -> (r: Option<Ebml<u64>>)
        ensures
            (match &r { Some(e) => seq![FieldModel::Flt64 { id: 0x2FB523, idx: e.index, key: e.id, bits: *e.v }], None => Seq::empty() }) == (match &self.gamma_value { Some(e) => seq![FieldModel::Flt64 { id: 0x2FB523, idx: e.index, key: e.id, bits: *e.v }], None => Seq::empty() }),
    {
        match &self.gamma_value {
            Some(e) => Some(crate::dup_ebml_copy(e)),
            None => None,
        }
    }

    /// A deep copy of the `frame_rate` slot.
    #[verifier::loop_isolation(false)]
    fn dup_frame_rate(&self) -> (r: Option<Ebml<u64>>)
        ensures
            (match &r { Some(e) => seq![FieldModel::Flt64 { id: 0x2383E3, idx: e.index, key: e.id, bits: *e.v }], None => Seq::empty() }) == (match &self.frame_rate { Some(e) => seq![FieldModel::Flt64 { id: 0x2383E3, idx: e.index, key: e.id, bits: *e.v }], None => Seq::empty() }),
    {
        match &self.frame_rate {
            Some(e) => Some(crate::dup_ebml_copy(e)),
            None => None,
        }
    }

    /// A deep copy of the `colour` slot.
    #[verifier::loop_isolation(false)]
    fn dup_colour(&self) -> (r: Option<Ebml<Colour>>)
        ensures
            (match &r { Some(e) => seq![FieldModel::Node { id: 0x55B0, idx: e.index, key: e.id, children: (*e.v).model() }], None => Seq::empty() }) == (match &self.colour { Some(e) => seq![FieldModel::Node { id: 0x55B0, idx: e.index, key: e.id, children: (*e.v).model() }], None => Seq::empty() }),
    {
        match &self.colour {
            Some(e) => {
                let d = (&*e.v).duplicate();
                proof {
                    reveal(Colour::model);
                    assert(d.model() == (*e.v).model());
                }
                Some(Ebml { index: e.index, v: Box::new(d), id: e.id })
            },
            None => None,
        }
    }

    /// A deep copy of the `projection` slot.
    #[verifier::loop_isolation(false)]
    fn dup_projection(&self) -> (r: Option<Ebml<Projection>>)
        ensures
            (match &r { Some(e) => seq![FieldModel::Node { id: 0x7670, idx: e.index, key: e.id, children: (*e.v).model() }], None => Seq::empty() }) == (match &self.projection { Some(e) => seq![FieldModel::Node { id: 0x7670, idx: e.index, key: e.id, children: (*e.v).model() }], None => Seq::empty() }),
    {
        match &self.projection {
            Some(e) => {
                let d = (&*e.v).duplicate();
                proof {
                    reveal(Projection::model);
                    assert(d.model() == (*e.v).model());
                }
                Some(Ebml { index: e.index, v: Box::new(d), id: e.id })
            },
            None => None,
        }
    }

    /// A deep copy with the same children, positions, and keys.
    #[verifier::rlimit(100)]
    #[verifier::spinoff_prover]
    pub fn duplicate(&self) -> (r: Self)
        ensures
            r.raw_model() == self.raw_model(),
            r.size == self.size,
    {
        let r = Video {
            size: self.size,
            flag_interlaced: self.dup_flag_interlaced(),
            field_order: self.dup_field_order(),
            stereo_mode: self.dup_stereo_mode(),
            alpha_mode: self.dup_alpha_mode(),
            old_stereo_mode: self.dup_old_stereo_mode(),
            pixel_width: self.dup_pixel_width(),
            pixel_height: self.dup_pixel_height(),
            pixel_crop_bottom: self.dup_pixel_crop_bottom(),
            pixel_crop_top: self.dup_pixel_crop_top(),
            pixel_crop_left: self.dup_pixel_crop_left(),
            pixel_crop_right: self.dup_pixel_crop_right(),
            display_width: self.dup_display_width(),
            display_height: self.dup_display_height(),
            display_unit: self.dup_display_unit(),
            aspect_ratio_type: self.dup_aspect_ratio_type(),
            uncompressed_four_cc: self.dup_uncompressed_four_cc(),
            gamma_value: self.dup_gamma_value(),
            frame_rate: self.dup_frame_rate(),
            colour: self.dup_colour(),
            projection: self.dup_projection(),
        };
        proof {
            reveal(Video::raw_model);
            assert(r.raw_model() == self.raw_model());
        }
        r
    }
}

impl Video {
    /// Serialise the whole element: body to a scratch buffer first, then
    /// the header with the now-known length, then the body.
    pub fn write_blocking(&self, w: &mut Vec<u8>) -> (r: Result<usize, MatroskaError>)
        ensures
            r is Ok <==> body_ok_rec(self.model()) && cat_bytes(self.model()).len() < 0xFFFFFFFFFFFFFF,
            r is Ok ==> final(w)@ == old(w)@ + node_frame_bytes(0xE0, cat_bytes(self.model()))
                && r->Ok_0 == node_frame_bytes(0xE0, cat_bytes(self.model())).len(),
            r is Err ==> final(w)@ == old(w)@ && r->Err_0 is InvalidVarIntMoreThanVintMax,
    {
        let mut buf: Vec<u8> = Vec::new();
        match self.write_body_blocking(&mut buf) {
            Ok(_) => {},
            Err(e) => {
                return Err(e);
            },
        }
        let start = w.len();
        match crate::io::write_element_id_size(w, 0xE0, buf.len() as u64) {
            Ok(_) => {},
            Err(e) => {
                return Err(e);
            },
        }
        w.append(&mut buf);
        Ok(w.len() - start)
    }

    /// Write this element's header with the given body size.
    pub fn write_header_blocking(&self, w: &mut Vec<u8>, size: u64) -> (r: Result<usize, MatroskaError>)
        ensures
            r is Ok <==> crate::io::size_encodable(size),
            r is Ok ==> final(w)@ == old(w)@ + crate::io::header_bytes(0xE0, size)
                && r->Ok_0 == crate::io::header_bytes(0xE0, size).len(),
            r is Err ==> final(w)@ == old(w)@ && r->Err_0 is InvalidVarIntMoreThanVintMax,
    {
        crate::io::write_element_id_size(w, 0xE0, size)
    }

    /// Write the body: every present child, in emission order.
    #[verifier::loop_isolation(false)]
    #[verifier::rlimit(60)]
    #[verifier::spinoff_prover]
    pub fn write_body_blocking(&self, w: &mut Vec<u8>) -> (r: Result<usize, MatroskaError>)
        ensures
            r is Ok <==> body_ok_rec(self.model()),
            r is Ok ==> final(w)@ == old(w)@ + cat_bytes(self.model())
                && r->Ok_0 == cat_bytes(self.model()).len(),
            r is Err ==> r->Err_0 is InvalidVarIntMoreThanVintMax,
    {
        let fields = self.elements();
        let start = w.len();
        let ghost ms = self.model();
        let mut i: usize = 0;
        while i < fields.len()
            invariant
                i <= fields@.len(),
                models_of::<VideoFields>(fields@) == ms,
                w@ == old(w)@ + cat_bytes(ms.take(i as int)),
                body_ok_rec(ms.take(i as int)),
            decreases fields@.len() - i,
        {
            proof {
                assert(models_of::<VideoFields>(fields@)[i as int] == ms[i as int]);
            }
            match fields[i].write_el(w) {
                Ok(_) => {},
                Err(e) => {
                    proof {
                        lemma_body_ok_forall(ms);
                    }
                    return Err(e);
                },
            }
            proof {
                assert(ms.take(i + 1) =~= ms.take(i as int).push(ms[i as int]));
                lemma_cat_snoc(ms.take(i as int), ms[i as int]);
            }
            i += 1;
        }
        proof {
            assert(ms.take(ms.len() as int) =~= ms);
            lemma_body_ok_forall(ms);
        }
        Ok(w.len() - start)
    }
}

/// One present child of a `Video`, paired with its value.
#[derive(Debug)]
pub enum VideoFields {
    FlagInterlaced(Ebml<u64>),
    FieldOrder(Ebml<u64>),
    StereoMode(Ebml<u64>),
    AlphaMode(Ebml<u64>),
    OldStereoMode(Ebml<u64>),
    PixelWidth(Ebml<u64>),
    PixelHeight(Ebml<u64>),
    PixelCropBottom(Ebml<u64>),
    PixelCropTop(Ebml<u64>),
    PixelCropLeft(Ebml<u64>),
    PixelCropRight(Ebml<u64>),
    DisplayWidth(Ebml<u64>),
    DisplayHeight(Ebml<u64>),
    DisplayUnit(Ebml<u64>),
    AspectRatioType(Ebml<u64>),
    UncompressedFourCc(Ebml<Vec<u8>>),
    GammaValue(Ebml<u64>),
    FrameRate(Ebml<u64>),
    Colour(Ebml<Colour>),
    Projection(Ebml<Projection>),
}

impl VideoFields {
    /// The child's element ID and its two ordering slots.
    #[verifier::rlimit(60)]
    #[verifier::spinoff_prover]
    pub fn index(&self) -> (r: (EbmlId, Option<u64>, u64))
        ensures
            r.0.spec_u64() == self.model().eid(),
            r.1 == self.model().idx(),
            r.2 == self.model().key(),
    {
        match self {
            Self::FlagInterlaced(val) => (EbmlId::FlagInterlaced, val.index, val.id),
            Self::FieldOrder(val) => (EbmlId::FieldOrder, val.index, val.id),
            Self::StereoMode(val) => (EbmlId::StereoMode, val.index, val.id),
            Self::AlphaMode(val) => (EbmlId::AlphaMode, val.index, val.id),
            Self::OldStereoMode(val) => (EbmlId::OldStereoMode, val.index, val.id),
            Self::PixelWidth(val) => (EbmlId::PixelWidth, val.index, val.id),
            Self::PixelHeight(val) => (EbmlId::PixelHeight, val.index, val.id),
            Self::PixelCropBottom(val) => (EbmlId::PixelCropBottom, val.index, val.id),
            Self::PixelCropTop(val) => (EbmlId::PixelCropTop, val.index, val.id),
            Self::PixelCropLeft(val) => (EbmlId::PixelCropLeft, val.index, val.id),
            Self::PixelCropRight(val) => (EbmlId::PixelCropRight, val.index, val.id),
            Self::DisplayWidth(val) => (EbmlId::DisplayWidth, val.index, val.id),
            Self::DisplayHeight(val) => (EbmlId::DisplayHeight, val.index, val.id),
            Self::DisplayUnit(val) => (EbmlId::DisplayUnit, val.index, val.id),
            Self::AspectRatioType(val) => (EbmlId::AspectRatioType, val.index, val.id),
            Self::UncompressedFourCc(val) => (EbmlId::UncompressedFourCc, val.index, val.id),
            Self::GammaValue(val) => (EbmlId::GammaValue, val.index, val.id),
            Self::FrameRate(val) => (EbmlId::FrameRate, val.index, val.id),
            Self::Colour(val) => (EbmlId::Colour, val.index, val.id),
            Self::Projection(val) => (EbmlId::Projection, val.index, val.id),
        }
    }

    /// Write this child's frame.
    #[verifier::rlimit(60)]
    #[verifier::spinoff_prover]
    pub fn write_el(&self, w: &mut Vec<u8>) -> (r: Result<usize, MatroskaError>)
        ensures
            r is Ok <==> el_ok(self.model()),
            r is Ok ==> final(w)@ == old(w)@ + el_bytes(self.model())
                && r->Ok_0 == el_bytes(self.model()).len(),
            r is Err ==> final(w)@ == old(w)@ && r->Err_0 is InvalidVarIntMoreThanVintMax,
    {
        match self {
            Self::FlagInterlaced(val) => crate::io::write_el_uint(w, 0x9A, &*val.v),
            Self::FieldOrder(val) => crate::io::write_el_uint(w, 0x9D, &*val.v),
            Self::StereoMode(val) => crate::io::write_el_uint(w, 0x53B8, &*val.v),
            Self::AlphaMode(val) => crate::io::write_el_uint(w, 0x53C0, &*val.v),
            Self::OldStereoMode(val) => crate::io::write_el_uint(w, 0x53B9, &*val.v),
            Self::PixelWidth(val) => crate::io::write_el_uint(w, 0xB0, &*val.v),
            Self::PixelHeight(val) => crate::io::write_el_uint(w, 0xBA, &*val.v),
            Self::PixelCropBottom(val) => crate::io::write_el_uint(w, 0x54AA, &*val.v),
            Self::PixelCropTop(val) => crate::io::write_el_uint(w, 0x54BB, &*val.v),
            Self::PixelCropLeft(val) => crate::io::write_el_uint(w, 0x54CC, &*val.v),
            Self::PixelCropRight(val) => crate::io::write_el_uint(w, 0x54DD, &*val.v),
            Self::DisplayWidth(val) => crate::io::write_el_uint(w, 0x54B0, &*val.v),
            Self::DisplayHeight(val) => crate::io::write_el_uint(w, 0x54BA, &*val.v),
            Self::DisplayUnit(val) => crate::io::write_el_uint(w, 0x54B2, &*val.v),
            Self::AspectRatioType(val) => crate::io::write_el_uint(w, 0x54B3, &*val.v),
            Self::UncompressedFourCc(val) => crate::io::write_el_bin(w, 0x2EB524, (*val.v).as_slice()),
            Self::GammaValue(val) => crate::io::write_el_float64(w, 0x2FB523, *val.v),
            Self::FrameRate(val) => crate::io::write_el_float64(w, 0x2383E3, *val.v),
            Self::Colour(val) => (*val.v).write_blocking(w),
            Self::Projection(val) => (*val.v).write_blocking(w),
        }
    }
}

impl EbmlField for VideoFields {
    open spec fn model(&self) -> FieldModel {
        match self {
            Self::FlagInterlaced(e) => FieldModel::UInt { id: 0x9A, idx: e.index, key: e.id, v: *e.v },
            Self::FieldOrder(e) => FieldModel::UInt { id: 0x9D, idx: e.index, key: e.id, v: *e.v },
            Self::StereoMode(e) => FieldModel::UInt { id: 0x53B8, idx: e.index, key: e.id, v: *e.v },
            Self::AlphaMode(e) => FieldModel::UInt { id: 0x53C0, idx: e.index, key: e.id, v: *e.v },
            Self::OldStereoMode(e) => FieldModel::UInt { id: 0x53B9, idx: e.index, key: e.id, v: *e.v },
            Self::PixelWidth(e) => FieldModel::UInt { id: 0xB0, idx: e.index, key: e.id, v: *e.v },
            Self::PixelHeight(e) => FieldModel::UInt { id: 0xBA, idx: e.index, key: e.id, v: *e.v },
            Self::PixelCropBottom(e) => FieldModel::UInt { id: 0x54AA, idx: e.index, key: e.id, v: *e.v },
            Self::PixelCropTop(e) => FieldModel::UInt { id: 0x54BB, idx: e.index, key: e.id, v: *e.v },
            Self::PixelCropLeft(e) => FieldModel::UInt { id: 0x54CC, idx: e.index, key: e.id, v: *e.v },
            Self::PixelCropRight(e) => FieldModel::UInt { id: 0x54DD, idx: e.index, key: e.id, v: *e.v },
            Self::DisplayWidth(e) => FieldModel::UInt { id: 0x54B0, idx: e.index, key: e.id, v: *e.v },
            Self::DisplayHeight(e) => FieldModel::UInt { id: 0x54BA, idx: e.index, key: e.id, v: *e.v },
            Self::DisplayUnit(e) => FieldModel::UInt { id: 0x54B2, idx: e.index, key: e.id, v: *e.v },
            Self::AspectRatioType(e) => FieldModel::UInt { id: 0x54B3, idx: e.index, key: e.id, v: *e.v },
            Self::UncompressedFourCc(e) => FieldModel::Bin { id: 0x2EB524, idx: e.index, key: e.id, b: (*e.v)@ },
            Self::GammaValue(e) => FieldModel::Flt64 { id: 0x2FB523, idx: e.index, key: e.id, bits: *e.v },
            Self::FrameRate(e) => FieldModel::Flt64 { id: 0x2383E3, idx: e.index, key: e.id, bits: *e.v },
            Self::Colour(e) => FieldModel::Node { id: 0x55B0, idx: e.index, key: e.id, children: (*e.v).model() },
            Self::Projection(e) => FieldModel::Node { id: 0x7670, idx: e.index, key: e.id, children: (*e.v).model() },
        }
    }

    fn sort_key(&self) -> (r: (Option<u64>, u64)) {
        match self {
            Self::FlagInterlaced(e) => (e.index, e.id),
            Self::FieldOrder(e) => (e.index, e.id),
            Self::StereoMode(e) => (e.index, e.id),
            Self::AlphaMode(e) => (e.index, e.id),
            Self::OldStereoMode(e) => (e.index, e.id),
            Self::PixelWidth(e) => (e.index, e.id),
            Self::PixelHeight(e) => (e.index, e.id),
            Self::PixelCropBottom(e) => (e.index, e.id),
            Self::PixelCropTop(e) => (e.index, e.id),
            Self::PixelCropLeft(e) => (e.index, e.id),
            Self::PixelCropRight(e) => (e.index, e.id),
            Self::DisplayWidth(e) => (e.index, e.id),
            Self::DisplayHeight(e) => (e.index, e.id),
            Self::DisplayUnit(e) => (e.index, e.id),
            Self::AspectRatioType(e) => (e.index, e.id),
            Self::UncompressedFourCc(e) => (e.index, e.id),
            Self::GammaValue(e) => (e.index, e.id),
            Self::FrameRate(e) => (e.index, e.id),
            Self::Colour(e) => (e.index, e.id),
            Self::Projection(e) => (e.index, e.id),
        }
    }
}

/// The `Colour` structural element.
#[derive(Debug)]
pub struct Colour {
    pub size: u64,
    pub matrix_coefficients: Ebml<u64>,
    pub bits_per_channel: Ebml<u64>,
    pub chroma_subsampling_horz: Option<Ebml<u64>>,
    pub chroma_subsampling_vert: Option<Ebml<u64>>,
    pub cb_subsampling_horz: Option<Ebml<u64>>,
    pub cb_subsampling_vert: Option<Ebml<u64>>,
    pub chroma_siting_horz: Ebml<u64>,
    pub chroma_siting_vert: Ebml<u64>,
    pub range: Ebml<u64>,
    pub transfer_characteristics: Ebml<u64>,
    pub primaries: Ebml<u64>,
    pub max_cll: Option<Ebml<u64>>,
    pub max_fall: Option<Ebml<u64>>,
    pub structing_metadata: Option<Ebml<StructingMetadata>>,
}

impl Colour {
    /// The models of the children, in declaration order.
    #[verifier::opaque]
    pub open spec fn raw_model(self) -> Seq<FieldModel>
    {
        seq![FieldModel::UInt { id: 0x55B1, idx: self.matrix_coefficients.index, key: self.matrix_coefficients.id, v: *self.matrix_coefficients.v }]
            + seq![FieldModel::UInt { id: 0x55B2, idx: self.bits_per_channel.index, key: self.bits_per_channel.id, v: *self.bits_per_channel.v }]
            + (match self.chroma_subsampling_horz { Some(e) => seq![FieldModel::UInt { id: 0x55B3, idx: e.index, key: e.id, v: *e.v }], None => Seq::empty() })
            + (match self.chroma_subsampling_vert { Some(e) => seq![FieldModel::UInt { id: 0x55B4, idx: e.index, key: e.id, v: *e.v }], None => Seq::empty() })
            + (match self.cb_subsampling_horz { Some(e) => seq![FieldModel::UInt { id: 0x55B5, idx: e.index, key: e.id, v: *e.v }], None => Seq::empty() })
            + (match self.cb_subsampling_vert { Some(e) => seq![FieldModel::UInt { id: 0x55B6, idx: e.index, key: e.id, v: *e.v }], None => Seq::empty() })
            + seq![FieldModel::UInt { id: 0x55B7, idx: self.chroma_siting_horz.index, key: self.chroma_siting_horz.id, v: *self.chroma_siting_horz.v }]
            + seq![FieldModel::UInt { id: 0x55B8, idx: self.chroma_siting_vert.index, key: self.chroma_siting_vert.id, v: *self.chroma_siting_vert.v }]
            + seq![FieldModel::UInt { id: 0x55B9, idx: self.range.index, key: self.range.id, v: *self.range.v }]
            + seq![FieldModel::UInt { id: 0x55BA, idx: self.transfer_characteristics.index, key: self.transfer_characteristics.id, v: *self.transfer_characteristics.v }]
            + seq![FieldModel::UInt { id: 0x55BB, idx: self.primaries.index, key: self.primaries.id, v: *self.primaries.v }]
            + (match self.max_cll { Some(e) => seq![FieldModel::UInt { id: 0x55BC, idx: e.index, key: e.id, v: *e.v }], None => Seq::empty() })
            + (match self.max_fall { Some(e) => seq![FieldModel::UInt { id: 0x55BD, idx: e.index, key: e.id, v: *e.v }], None => Seq::empty() })
            + (match self.structing_metadata { Some(e) => seq![FieldModel::Node { id: 0x55D0, idx: e.index, key: e.id, children: (*e.v).model() }], None => Seq::empty() })
    }

    /// The children in emission order.
    #[verifier::opaque]
    pub open spec fn model(self) -> Seq<FieldModel>
    {
        sort_fields_spec(self.raw_model())
    }

    /// Append the `matrix_coefficients` child values to a field run.
    #[verifier::loop_isolation(false)]
    fn push_matrix_coefficients(&self, v: &mut Vec<ColourFields>)
        ensures
            models_of::<ColourFields>(final(v)@) == models_of::<ColourFields>(old(v)@) + seq![FieldModel::UInt { id: 0x55B1, idx: self.matrix_coefficients.index, key: self.matrix_coefficients.id, v: *self.matrix_coefficients.v }],
    {
        let ghost prevv = v@;
        v.push(ColourFields::MatrixCoefficients(crate::dup_ebml_copy(&self.matrix_coefficients)));
        proof {
            assert(models_of::<ColourFields>(v@) =~= models_of::<ColourFields>(prevv).push(v@.last().model()));
            assert(models_of::<ColourFields>(prevv).push(v@.last().model()) =~= models_of::<ColourFields>(prevv) + seq![FieldModel::UInt { id: 0x55B1, idx: self.matrix_coefficients.index, key: self.matrix_coefficients.id, v: *self.matrix_coefficients.v }]);
        }
    }

    /// Append the `bits_per_channel` child values to a field run.
    #[verifier::loop_isolation(false)]
    fn push_bits_per_channel(&self, v: &mut Vec<ColourFields>)
        ensures
            models_of::<ColourFields>(final(v)@) == models_of::<ColourFields>(old(v)@) + seq![FieldModel::UInt { id: 0x55B2, idx: self.bits_per_channel.index, key: self.bits_per_channel.id, v: *self.bits_per_channel.v }],
    {
        let ghost prevv = v@;
        v.push(ColourFields::BitsPerChannel(crate::dup_ebml_copy(&self.bits_per_channel)));
        proof {
            assert(models_of::<ColourFields>(v@) =~= models_of::<ColourFields>(prevv).push(v@.last().model()));
            assert(models_of::<ColourFields>(prevv).push(v@.last().model()) =~= models_of::<ColourFields>(prevv) + seq![FieldModel::UInt { id: 0x55B2, idx: self.bits_per_channel.index, key: self.bits_per_channel.id, v: *self.bits_per_channel.v }]);
        }
    }

    /// Append the `chroma_subsampling_horz` child values to a field run.
    #[verifier::loop_isolation(false)]
    fn push_chroma_subsampling_horz(&self, v: &mut Vec<ColourFields>)
        ensures
            models_of::<ColourFields>(final(v)@) == models_of::<ColourFields>(old(v)@) + (match &self.chroma_subsampling_horz { Some(e) => seq![FieldModel::UInt { id: 0x55B3, idx: e.index, key: e.id, v: *e.v }], None => Seq::empty() }),
    {
        match &self.chroma_subsampling_horz {
            Some(e) => {
                let ghost prevv = v@;
                v.push(ColourFields::ChromaSubsamplingHorz(crate::dup_ebml_copy(e)));
                proof {
                    assert(models_of::<ColourFields>(v@) =~= models_of::<ColourFields>(prevv).push(v@.last().model()));
                    assert(models_of::<ColourFields>(prevv).push(v@.last().model()) =~= models_of::<ColourFields>(prevv) + (match &self.chroma_subsampling_horz { Some(e) => seq![FieldModel::UInt { id: 0x55B3, idx: e.index, key: e.id, v: *e.v }], None => Seq::empty() }));
                }
            },
            None => {
                proof {
                    assert(models_of::<ColourFields>(v@) =~= models_of::<ColourFields>(v@) + (match &self.chroma_subsampling_horz { Some(e) => seq![FieldModel::UInt { id: 0x55B3, idx: e.index, key: e.id, v: *e.v }], None => Seq::empty() }));
                }
            },
        }
    }

    /// Append the `chroma_subsampling_vert` child values to a field run.
    #[verifier::loop_isolation(false)]
    fn push_chroma_subsampling_vert(&self, v: &mut Vec<ColourFields>)
        ensures
            models_of::<ColourFields>(final(v)@) == models_of::<ColourFields>(old(v)@) + (match &self.chroma_subsampling_vert { Some(e) => seq![FieldModel::UInt { id: 0x55B4, idx: e.index, key: e.id, v: *e.v }], None => Seq::empty() }),
    {
        match &self.chroma_subsampling_vert {
            Some(e) => {
                let ghost prevv = v@;
                v.push(ColourFields::ChromaSubsamplingVert(crate::dup_ebml_copy(e)));
                proof {
                    assert(models_of::<ColourFields>(v@) =~= models_of::<ColourFields>(prevv).push(v@.last().model()));
                    assert(models_of::<ColourFields>(prevv).push(v@.last().model()) =~= models_of::<ColourFields>(prevv) + (match &self.chroma_subsampling_vert { Some(e) => seq![FieldModel::UInt { id: 0x55B4, idx: e.index, key: e.id, v: *e.v }], None => Seq::empty() }));
                }
            },
            None => {
                proof {
                    assert(models_of::<ColourFields>(v@) =~= models_of::<ColourFields>(v@) + (match &self.chroma_subsampling_vert { Some(e) => seq![FieldModel::UInt { id: 0x55B4, idx: e.index, key: e.id, v: *e.v }], None => Seq::empty() }));
                }
            },
        }
    }

    /// Append the `cb_subsampling_horz` child values to a field run.
    #[verifier::loop_isolation(false)]
    fn push_cb_subsampling_horz(&self, v: &mut Vec<ColourFields>)
        ensures
            models_of::<ColourFields>(final(v)@) == models_of::<ColourFields>(old(v)@) + (match &self.cb_subsampling_horz { Some(e) => seq![FieldModel::UInt { id: 0x55B5, idx: e.index, key: e.id, v: *e.v }], None => Seq::empty() }),
    {
        match &self.cb_subsampling_horz {
            Some(e) => {
                let ghost prevv = v@;
                v.push(ColourFields::CbSubsamplingHorz(crate::dup_ebml_copy(e)));
                proof {
                    assert(models_of::<ColourFields>(v@) =~= models_of::<ColourFields>(prevv).push(v@.last().model()));
                    assert(models_of::<ColourFields>(prevv).push(v@.last().model()) =~= models_of::<ColourFields>(prevv) + (match &self.cb_subsampling_horz { Some(e) => seq![FieldModel::UInt { id: 0x55B5, idx: e.index, key: e.id, v: *e.v }], None => Seq::empty() }));
                }
            },
            None => {
                proof {
                    assert(models_of::<ColourFields>(v@) =~= models_of::<ColourFields>(v@) + (match &self.cb_subsampling_horz { Some(e) => seq![FieldModel::UInt { id: 0x55B5, idx: e.index, key: e.id, v: *e.v }], None => Seq::empty() }));
                }
            },
        }
    }

    /// Append the `cb_subsampling_vert` child values to a field run.
    #[verifier::loop_isolation(false)]
    fn push_cb_subsampling_vert(&self, v: &mut Vec<ColourFields>)
        ensures
            models_of::<ColourFields>(final(v)@) == models_of::<ColourFields>(old(v)@) + (match &self.cb_subsampling_vert { Some(e) => seq![FieldModel::UInt { id: 0x55B6, idx: e.index, key: e.id, v: *e.v }], None => Seq::empty() }),
    {
        match &self.cb_subsampling_vert {
            Some(e) => {
                let ghost prevv = v@;
                v.push(ColourFields::CbSubsamplingVert(crate::dup_ebml_copy(e)));
                proof {
                    assert(models_of::<ColourFields>(v@) =~= models_of::<ColourFields>(prevv).push(v@.last().model()));
                    assert(models_of::<ColourFields>(prevv).push(v@.last().model()) =~= models_of::<ColourFields>(prevv) + (match &self.cb_subsampling_vert { Some(e) => seq![FieldModel::UInt { id: 0x55B6, idx: e.index, key: e.id, v: *e.v }], None => Seq::empty() }));
                }
            },
            None => {
                proof {
                    assert(models_of::<ColourFields>(v@) =~= models_of::<ColourFields>(v@) + (match &self.cb_subsampling_vert { Some(e) => seq![FieldModel::UInt { id: 0x55B6, idx: e.index, key: e.id, v: *e.v }], None => Seq::empty() }));
                }
            },
        }
    }

    /// Append the `chroma_siting_horz` child values to a field run.
    #[verifier::loop_isolation(false)]
    fn push_chroma_siting_horz(&self, v: &mut Vec<ColourFields>)
        ensures
            models_of::<ColourFields>(final(v)@) == models_of::<ColourFields>(old(v)@) + seq![FieldModel::UInt { id: 0x55B7, idx: self.chroma_siting_horz.index, key: self.chroma_siting_horz.id, v: *self.chroma_siting_horz.v }],
    {
        let ghost prevv = v@;
        v.push(ColourFields::ChromaSitingHorz(crate::dup_ebml_copy(&self.chroma_siting_horz)));
        proof {
            assert(models_of::<ColourFields>(v@) =~= models_of::<ColourFields>(prevv).push(v@.last().model()));
            assert(models_of::<ColourFields>(prevv).push(v@.last().model()) =~= models_of::<ColourFields>(prevv) + seq![FieldModel::UInt { id: 0x55B7, idx: self.chroma_siting_horz.index, key: self.chroma_siting_horz.id, v: *self.chroma_siting_horz.v }]);
        }
    }

    /// Append the `chroma_siting_vert` child values to a field run.
    #[verifier::loop_isolation(false)]
    fn push_chroma_siting_vert(&self, v: &mut Vec<ColourFields>)
        ensures
            models_of::<ColourFields>(final(v)@) == models_of::<ColourFields>(old(v)@) + seq![FieldModel::UInt { id: 0x55B8, idx: self.chroma_siting_vert.index, key: self.chroma_siting_vert.id, v: *self.chroma_siting_vert.v }],
    {
        let ghost prevv = v@;
        v.push(ColourFields::ChromaSitingVert(crate::dup_ebml_copy(&self.chroma_siting_vert)));
        proof {
            assert(models_of::<ColourFields>(v@) =~= models_of::<ColourFields>(prevv).push(v@.last().model()));
            assert(models_of::<ColourFields>(prevv).push(v@.last().model()) =~= models_of::<ColourFields>(prevv) + seq![FieldModel::UInt { id: 0x55B8, idx: self.chroma_siting_vert.index, key: self.chroma_siting_vert.id, v: *self.chroma_siting_vert.v }]);
        }
    }

    /// Append the `range` child values to a field run.
    #[verifier::loop_isolation(false)]
    fn push_range(&self, v: &mut Vec<ColourFields>)
        ensures
            models_of::<ColourFields>(final(v)@) == models_of::<ColourFields>(old(v)@) + seq![FieldModel::UInt { id: 0x55B9, idx: self.range.index, key: self.range.id, v: *self.range.v }],
    {
        let ghost prevv = v@;
        v.push(ColourFields::Range(crate::dup_ebml_copy(&self.range)));
        proof {
            assert(models_of::<ColourFields>(v@) =~= models_of::<ColourFields>(prevv).push(v@.last().model()));
            assert(models_of::<ColourFields>(prevv).push(v@.last().model()) =~= models_of::<ColourFields>(prevv) + seq![FieldModel::UInt { id: 0x55B9, idx: self.range.index, key: self.range.id, v: *self.range.v }]);
        }
    }

    /// Append the `transfer_characteristics` child values to a field run.
    #[verifier::loop_isolation(false)]
    fn push_transfer_characteristics(&self, v: &mut Vec<ColourFields>)
        ensures
            models_of::<ColourFields>(final(v)@) == models_of::<ColourFields>(old(v)@) + seq![FieldModel::UInt { id: 0x55BA, idx: self.transfer_characteristics.index, key: self.transfer_characteristics.id, v: *self.transfer_characteristics.v }],
    {
        let ghost prevv = v@;
        v.push(ColourFields::TransferCharacteristics(crate::dup_ebml_copy(&self.transfer_characteristics)));
        proof {
            assert(models_of::<ColourFields>(v@) =~= models_of::<ColourFields>(prevv).push(v@.last().model()));
            assert(models_of::<ColourFields>(prevv).push(v@.last().model()) =~= models_of::<ColourFields>(prevv) + seq![FieldModel::UInt { id: 0x55BA, idx: self.transfer_characteristics.index, key: self.transfer_characteristics.id, v: *self.transfer_characteristics.v }]);
        }
    }

    /// Append the `primaries` child values to a field run.
    #[verifier::loop_isolation(false)]
    fn push_primaries(&self, v: &mut Vec<ColourFields>)
        ensures
            models_of::<ColourFields>(final(v)@) == models_of::<ColourFields>(old(v)@) + seq![FieldModel::UInt { id: 0x55BB, idx: self.primaries.index, key: self.primaries.id, v: *self.primaries.v }],
    {
        let ghost prevv = v@;
        v.push(ColourFields::Primaries(crate::dup_ebml_copy(&self.primaries)));
        proof {
            assert(models_of::<ColourFields>(v@) =~= models_of::<ColourFields>(prevv).push(v@.last().model()));
            assert(models_of::<ColourFields>(prevv).push(v@.last().model()) =~= models_of::<ColourFields>(prevv) + seq![FieldModel::UInt { id: 0x55BB, idx: self.primaries.index, key: self.primaries.id, v: *self.primaries.v }]);
        }
    }

    /// Append the `max_cll` child values to a field run.
    #[verifier::loop_isolation(false)]
    fn push_max_cll(&self, v: &mut Vec<ColourFields>)
        ensures
            models_of::<ColourFields>(final(v)@) == models_of::<ColourFields>(old(v)@) + (match &self.max_cll { Some(e) => seq![FieldModel::UInt { id: 0x55BC, idx: e.index, key: e.id, v: *e.v }], None => Seq::empty() }),
    {
        match &self.max_cll {
            Some(e) => {
                let ghost prevv = v@;
                v.push(ColourFields::MaxCll(crate::dup_ebml_copy(e)));
                proof {
                    assert(models_of::<ColourFields>(v@) =~= models_of::<ColourFields>(prevv).push(v@.last().model()));
                    assert(models_of::<ColourFields>(prevv).push(v@.last().model()) =~= models_of::<ColourFields>(prevv) + (match &self.max_cll { Some(e) => seq![FieldModel::UInt { id: 0x55BC, idx: e.index, key: e.id, v: *e.v }], None => Seq::empty() }));
                }
            },
            None => {
                proof {
                    assert(models_of::<ColourFields>(v@) =~= models_of::<ColourFields>(v@) + (match &self.max_cll { Some(e) => seq![FieldModel::UInt { id: 0x55BC, idx: e.index, key: e.id, v: *e.v }], None => Seq::empty() }));
                }
            },
        }
    }

    /// Append the `max_fall` child values to a field run.
    #[verifier::loop_isolation(false)]
    fn push_max_fall(&self, v: &mut Vec<ColourFields>)
        ensures
            models_of::<ColourFields>(final(v)@) == models_of::<ColourFields>(old(v)@) + (match &self.max_fall { Some(e) => seq![FieldModel::UInt { id: 0x55BD, idx: e.index, key: e.id, v: *e.v }], None => Seq::empty() }),
    {
        match &self.max_fall {
            Some(e) => {
                let ghost prevv = v@;
                v.push(ColourFields::MaxFall(crate::dup_ebml_copy(e)));
                proof {
                    assert(models_of::<ColourFields>(v@) =~= models_of::<ColourFields>(prevv).push(v@.last().model()));
                    assert(models_of::<ColourFields>(prevv).push(v@.last().model()) =~= models_of::<ColourFields>(prevv) + (match &self.max_fall { Some(e) => seq![FieldModel::UInt { id: 0x55BD, idx: e.index, key: e.id, v: *e.v }], None => Seq::empty() }));
                }
            },
            None => {
                proof {
                    assert(models_of::<ColourFields>(v@) =~= models_of::<ColourFields>(v@) + (match &self.max_fall { Some(e) => seq![FieldModel::UInt { id: 0x55BD, idx: e.index, key: e.id, v: *e.v }], None => Seq::empty() }));
                }
            },
        }
    }

    /// Append the `structing_metadata` child values to a field run.
    #[verifier::loop_isolation(false)]
    fn push_structing_metadata(&self, v: &mut Vec<ColourFields>)
        ensures
            models_of::<ColourFields>(final(v)@) == models_of::<ColourFields>(old(v)@) + (match &self.structing_metadata { Some(e) => seq![FieldModel::Node { id: 0x55D0, idx: e.index, key: e.id, children: (*e.v).model() }], None => Seq::empty() }),
    {
        match &self.structing_metadata {
            Some(e) => {
                let d = (&*e.v).duplicate();
                proof {
                    reveal(StructingMetadata::model);
                    assert(d.model() == (*e.v).model());
                }
                let ghost prevv = v@;
                v.push(ColourFields::StructingMetadata(Ebml { index: e.index, v: Box::new(d), id: e.id }));
                proof {
                    assert(models_of::<ColourFields>(v@) =~= models_of::<ColourFields>(prevv).push(v@.last().model()));
                    assert(models_of::<ColourFields>(prevv).push(v@.last().model()) =~= models_of::<ColourFields>(prevv) + (match &self.structing_metadata { Some(e) => seq![FieldModel::Node { id: 0x55D0, idx: e.index, key: e.id, children: (*e.v).model() }], None => Seq::empty() }));
                }
            },
            None => {
                proof {
                    assert(models_of::<ColourFields>(v@) =~= models_of::<ColourFields>(v@) + (match &self.structing_metadata { Some(e) => seq![FieldModel::Node { id: 0x55D0, idx: e.index, key: e.id, children: (*e.v).model() }], None => Seq::empty() }));
                }
            },
        }
    }

    /// The present children, each paired with its ID, in emission order.
    #[verifier::rlimit(100)]
    #[verifier::spinoff_prover]
    pub fn elements(&self) -> (r: Vec<ColourFields>)
        ensures
            models_of::<ColourFields>(r@) == self.model(),
    {
        let mut v: Vec<ColourFields> = Vec::new();
        proof {
            assert(models_of::<ColourFields>(v@) =~= Seq::<FieldModel>::empty());
        }
        self.push_matrix_coefficients(&mut v);
        self.push_bits_per_channel(&mut v);
        self.push_chroma_subsampling_horz(&mut v);
        self.push_chroma_subsampling_vert(&mut v);
        self.push_cb_subsampling_horz(&mut v);
        self.push_cb_subsampling_vert(&mut v);
        self.push_chroma_siting_horz(&mut v);
        self.push_chroma_siting_vert(&mut v);
        self.push_range(&mut v);
        self.push_transfer_characteristics(&mut v);
        self.push_primaries(&mut v);
        self.push_max_cll(&mut v);
        self.push_max_fall(&mut v);
        self.push_structing_metadata(&mut v);
        proof {
            reveal(Colour::raw_model);
            reveal(Colour::model);
            assert(Seq::<FieldModel>::empty() + seq![FieldModel::UInt { id: 0x55B1, idx: self.matrix_coefficients.index, key: self.matrix_coefficients.id, v: *self.matrix_coefficients.v }] =~= seq![FieldModel::UInt { id: 0x55B1, idx: self.matrix_coefficients.index, key: self.matrix_coefficients.id, v: *self.matrix_coefficients.v }]);
            assert(models_of::<ColourFields>(v@) == self.raw_model());
        }
        sort_fields(v)
    }

    /// A deep copy of the `matrix_coefficients` slot.
    #[verifier::loop_isolation(false)]
    fn dup_matrix_coefficients(&self) -> (r: Ebml<u64>)
        ensures
            seq![FieldModel::UInt { id: 0x55B1, idx: r.index, key: r.id, v: *r.v }] == seq![FieldModel::UInt { id: 0x55B1, idx: self.matrix_coefficients.index, key: self.matrix_coefficients.id, v: *self.matrix_coefficients.v }],
    {
        crate::dup_ebml_copy(&self.matrix_coefficients)
    }

    /// A deep copy of the `bits_per_channel` slot.
    #[verifier::loop_isolation(false)]
    fn dup_bits_per_channel(&self) -> (r: Ebml<u64>)
        ensures
            seq![FieldModel::UInt { id: 0x55B2, idx: r.index, key: r.id, v: *r.v }] == seq![FieldModel::UInt { id: 0x55B2, idx: self.bits_per_channel.index, key: self.bits_per_channel.id, v: *self.bits_per_channel.v }],
    {
        crate::dup_ebml_copy(&self.bits_per_channel)
    }

    /// A deep copy of the `chroma_subsampling_horz` slot.
    #[verifier::loop_isolation(false)]
    fn dup_chroma_subsampling_horz(&self) -> (r: Option<Ebml<u64>>)
        ensures
            (match &r { Some(e) => seq![FieldModel::UInt { id: 0x55B3, idx: e.index, key: e.id, v: *e.v }], None => Seq::empty() }) == (match &self.chroma_subsampling_horz { Some(e) => seq![FieldModel::UInt { id: 0x55B3, idx: e.index, key: e.id, v: *e.v }], None => Seq::empty() }),
    {
        match &self.chroma_subsampling_horz {
            Some(e) => Some(crate::dup_ebml_copy(e)),
            None => None,
        }
    }

    /// A deep copy of the `chroma_subsampling_vert` slot.
    #[verifier::loop_isolation(false)]
    fn dup_chroma_subsampling_vert(&self) -> (r: Option<Ebml<u64>>)
        ensures
            (match &r { Some(e) => seq![FieldModel::UInt { id: 0x55B4, idx: e.index, key: e.id, v: *e.v }], None => Seq::empty() }) == (match &self.chroma_subsampling_vert { Some(e) => seq![FieldModel::UInt { id: 0x55B4, idx: e.index, key: e.id, v: *e.v }], None => Seq::empty() }),
    {
        match &self.chroma_subsampling_vert {
            Some(e) => Some(crate::dup_ebml_copy(e)),
            None => None,
        }
    }

    /// A deep copy of the `cb_subsampling_horz` slot.
    #[verifier::loop_isolation(false)]
    fn dup_cb_subsampling_horz(&self) -> (r: Option<Ebml<u64>>)
        ensures
            (match &r { Some(e) => seq![FieldModel::UInt { id: 0x55B5, idx: e.index, key: e.id, v: *e.v }], None => Seq::empty() }) == (match &self.cb_subsampling_horz { Some(e) => seq![FieldModel::UInt { id: 0x55B5, idx: e.index, key: e.id, v: *e.v }], None => Seq::empty() }),
    {
        match &self.cb_subsampling_horz {
            Some(e) => Some(crate::dup_ebml_copy(e)),
            None => None,
        }
    }

    /// A deep copy of the `cb_subsampling_vert` slot.
    #[verifier::loop_isolation(false)]
    fn dup_cb_subsampling_vert(&self) -> (r: Option<Ebml<u64>>)
        ensures
            (match &r { Some(e) => seq![FieldModel::UInt { id: 0x55B6, idx: e.index, key: e.id, v: *e.v }], None => Seq::empty() }) == (match &self.cb_subsampling_vert { Some(e) => seq![FieldModel::UInt { id: 0x55B6, idx: e.index, key: e.id, v: *e.v }], None => Seq::empty() }),
    {
        match &self.cb_subsampling_vert {
            Some(e) => Some(crate::dup_ebml_copy(e)),
            None => None,
        }
    }

    /// A deep copy of the `chroma_siting_horz` slot.
    #[verifier::loop_isolation(false)]
    fn dup_chroma_siting_horz(&self) -> (r: Ebml<u64>)
        ensures
            seq![FieldModel::UInt { id: 0x55B7, idx: r.index, key: r.id, v: *r.v }] == seq![FieldModel::UInt { id: 0x55B7, idx: self.chroma_siting_horz.index, key: self.chroma_siting_horz.id, v: *self.chroma_siting_horz.v }],
    {
        crate::dup_ebml_copy(&self.chroma_siting_horz)
    }

    /// A deep copy of the `chroma_siting_vert` slot.
    #[verifier::loop_isolation(false)]
    fn dup_chroma_siting_vert(&self) -> (r: Ebml<u64>)
        ensures
            seq![FieldModel::UInt { id: 0x55B8, idx: r.index, key: r.id, v: *r.v }] == seq![FieldModel::UInt { id: 0x55B8, idx: self.chroma_siting_vert.index, key: self.chroma_siting_vert.id, v: *self.chroma_siting_vert.v }],
    {
        crate::dup_ebml_copy(&self.chroma_siting_vert)
    }

    /// A deep copy of the `range` slot.
    #[verifier::loop_isolation(false)]
    fn dup_range(&self) -> (r: Ebml<u64>)
        ensures
            seq![FieldModel::UInt { id: 0x55B9, idx: r.index, key: r.id, v: *r.v }] == seq![FieldModel::UInt { id: 0x55B9, idx: self.range.index, key: self.range.id, v: *self.range.v }],
    {
        crate::dup_ebml_copy(&self.range)
    }

    /// A deep copy of the `transfer_characteristics` slot.
    #[verifier::loop_isolation(false)]
    fn dup_transfer_characteristics(&self) -> (r: Ebml<u64>)
        ensures
            seq![FieldModel::UInt { id: 0x55BA, idx: r.index, key: r.id, v: *r.v }] == seq![FieldModel::UInt { id: 0x55BA, idx: self.transfer_characteristics.index, key: self.transfer_characteristics.id, v: *self.transfer_characteristics.v }],
    {
        crate::dup_ebml_copy(&self.transfer_characteristics)
    }

    /// A deep copy of the `primaries` slot.
    #[verifier::loop_isolation(false)]
    fn dup_primaries(&self) -> (r: Ebml<u64>)
        ensures
            seq![FieldModel::UInt { id: 0x55BB, idx: r.index, key: r.id, v: *r.v }] == seq![FieldModel::UInt { id: 0x55BB, idx: self.primaries.index, key: self.primaries.id, v: *self.primaries.v }],
    {
        crate::dup_ebml_copy(&self.primaries)
    }

    /// A deep copy of the `max_cll` slot.
    #[verifier::loop_isolation(false)]
    fn dup_max_cll(&self) -> (r: Option<Ebml<u64>>)
        ensures
            (match &r { Some(e) => seq![FieldModel::UInt { id: 0x55BC, idx: e.index, key: e.id, v: *e.v }], None => Seq::empty() }) == (match &self.max_cll { Some(e) => seq![FieldModel::UInt { id: 0x55BC, idx: e.index, key: e.id, v: *e.v }], None => Seq::empty() }),
    {
        match &self.max_cll {
            Some(e) => Some(crate::dup_ebml_copy(e)),
            None => None,
        }
    }

    /// A deep copy of the `max_fall` slot.
    #[verifier::loop_isolation(false)]
    fn dup_max_fall(&self) -> (r: Option<Ebml<u64>>)
        ensures
            (match &r { Some(e) => seq![FieldModel::UInt { id: 0x55BD, idx: e.index, key: e.id, v: *e.v }], None => Seq::empty() }) == (match &self.max_fall { Some(e) => seq![FieldModel::UInt { id: 0x55BD, idx: e.index, key: e.id, v: *e.v }], None => Seq::empty() }),
    {
        match &self.max_fall {
            Some(e) => Some(crate::dup_ebml_copy(e)),
            None => None,
        }
    }

    /// A deep copy of the `structing_metadata` slot.
    #[verifier::loop_isolation(false)]
    fn dup_structing_metadata(&self) -> (r: Option<Ebml<StructingMetadata>>)
        ensures
            (match &r { Some(e) => seq![FieldModel::Node { id: 0x55D0, idx: e.index, key: e.id, children: (*e.v).model() }], None => Seq::empty() }) == (match &self.structing_metadata { Some(e) => seq![FieldModel::Node { id: 0x55D0, idx: e.index, key: e.id, children: (*e.v).model() }], None => Seq::empty() }),
    {
        match &self.structing_metadata {
            Some(e) => {
                let d = (&*e.v).duplicate();
                proof {
                    reveal(StructingMetadata::model);
                    assert(d.model() == (*e.v).model());
                }
                Some(Ebml { index: e.index, v: Box::new(d), id: e.id })
            },
            None => None,
        }
    }

    /// A deep copy with the same children, positions, and keys.
    #[verifier::rlimit(100)]
    #[verifier::spinoff_prover]
    pub fn duplicate(&self) -> (r: Self)
        ensures
            r.raw_model() == self.raw_model(),
            r.size == self.size,
    {
        let r = Colour {
            size: self.size,
            matrix_coefficients: self.dup_matrix_coefficients(),
            bits_per_channel: self.dup_bits_per_channel(),
            chroma_subsampling_horz: self.dup_chroma_subsampling_horz(),
            chroma_subsampling_vert: self.dup_chroma_subsampling_vert(),
            cb_subsampling_horz: self.dup_cb_subsampling_horz(),
            cb_subsampling_vert: self.dup_cb_subsampling_vert(),
            chroma_siting_horz: self.dup_chroma_siting_horz(),
            chroma_siting_vert: self.dup_chroma_siting_vert(),
            range: self.dup_range(),
            transfer_characteristics: self.dup_transfer_characteristics(),
            primaries: self.dup_primaries(),
            max_cll: self.dup_max_cll(),
            max_fall: self.dup_max_fall(),
            structing_metadata: self.dup_structing_metadata(),
        };
        proof {
            reveal(Colour::raw_model);
            assert(r.raw_model() == self.raw_model());
        }
        r
    }
}

impl Colour {
    /// Serialise the whole element: body to a scratch buffer first, then
    /// the header with the now-known length, then the body.
    pub fn write_blocking(&self, w: &mut Vec<u8>) -> (r: Result<usize, MatroskaError>)
        ensures
            r is Ok <==> body_ok_rec(self.model()) && cat_bytes(self.model()).len() < 0xFFFFFFFFFFFFFF,
            r is Ok ==> final(w)@ == old(w)@ + node_frame_bytes(0x55B0, cat_bytes(self.model()))
                && r->Ok_0 == node_frame_bytes(0x55B0, cat_bytes(self.model())).len(),
            r is Err ==> final(w)@ == old(w)@ && r->Err_0 is InvalidVarIntMoreThanVintMax,
    {
        let mut buf: Vec<u8> = Vec::new();
        match self.write_body_blocking(&mut buf) {
            Ok(_) => {},
            Err(e) => {
                return Err(e);
            },
        }
        let start = w.len();
        match crate::io::write_element_id_size(w, 0x55B0, buf.len() as u64) {
            Ok(_) => {},
            Err(e) => {
                return Err(e);
            },
        }
        w.append(&mut buf);
        Ok(w.len() - start)
    }

    /// Write this element's header with the given body size.
    pub fn write_header_blocking(&self, w: &mut Vec<u8>, size: u64) -> (r: Result<usize, MatroskaError>)
        ensures
            r is Ok <==> crate::io::size_encodable(size),
            r is Ok ==> final(w)@ == old(w)@ + crate::io::header_bytes(0x55B0, size)
                && r->Ok_0 == crate::io::header_bytes(0x55B0, size).len(),
            r is Err ==> final(w)@ == old(w)@ && r->Err_0 is InvalidVarIntMoreThanVintMax,
    {
        crate::io::write_element_id_size(w, 0x55B0, size)
    }

    /// Write the body: every present child, in emission order.
    #[verifier::loop_isolation(false)]
    #[verifier::rlimit(60)]
    #[verifier::spinoff_prover]
    pub fn write_body_blocking(&self, w: &mut Vec<u8>) -> (r: Result<usize, MatroskaError>)
        ensures
            r is Ok <==> body_ok_rec(self.model()),
            r is Ok ==> final(w)@ == old(w)@ + cat_bytes(self.model())
                && r->Ok_0 == cat_bytes(self.model()).len(),
            r is Err ==> r->Err_0 is InvalidVarIntMoreThanVintMax,
    {
        let fields = self.elements();
        let start = w.len();
        let ghost ms = self.model();
        let mut i: usize = 0;
        while i < fields.len()
            invariant
                i <= fields@.len(),
                models_of::<ColourFields>(fields@) == ms,
                w@ == old(w)@ + cat_bytes(ms.take(i as int)),
                body_ok_rec(ms.take(i as int)),
            decreases fields@.len() - i,
        {
            proof {
                assert(models_of::<ColourFields>(fields@)[i as int] == ms[i as int]);
            }
            match fields[i].write_el(w) {
                Ok(_) => {},
                Err(e) => {
                    proof {
                        lemma_body_ok_forall(ms);
                    }
                    return Err(e);
                },
            }
            proof {
                assert(ms.take(i + 1) =~= ms.take(i as int).push(ms[i as int]));
                lemma_cat_snoc(ms.take(i as int), ms[i as int]);
            }
            i += 1;
        }
        proof {
            assert(ms.take(ms.len() as int) =~= ms);
            lemma_body_ok_forall(ms);
        }
        Ok(w.len() - start)
    }
}

/// One present child of a `Colour`, paired with its value.
#[derive(Debug)]
pub enum ColourFields {
    MatrixCoefficients(Ebml<u64>),
    BitsPerChannel(Ebml<u64>),
    ChromaSubsamplingHorz(Ebml<u64>),
    ChromaSubsamplingVert(Ebml<u64>),
    CbSubsamplingHorz(Ebml<u64>),
    CbSubsamplingVert(Ebml<u64>),
    ChromaSitingHorz(Ebml<u64>),
    ChromaSitingVert(Ebml<u64>),
    Range(Ebml<u64>),
    TransferCharacteristics(Ebml<u64>),
    Primaries(Ebml<u64>),
    MaxCll(Ebml<u64>),
    MaxFall(Ebml<u64>),
    StructingMetadata(Ebml<StructingMetadata>),
}

impl ColourFields {
    /// The child's element ID and its two ordering slots.
    #[verifier::rlimit(60)]
    #[verifier::spinoff_prover]
    pub fn index(&self) -> (r: (EbmlId, Option<u64>, u64))
        ensures
            r.0.spec_u64() == self.model().eid(),
            r.1 == self.model().idx(),
            r.2 == self.model().key(),
    {
        match self {
            Self::MatrixCoefficients(val) => (EbmlId::MatrixCoefficients, val.index, val.id),
            Self::BitsPerChannel(val) => (EbmlId::BitsPerChannel, val.index, val.id),
            Self::ChromaSubsamplingHorz(val) => (EbmlId::ChromaSubsamplingHorz, val.index, val.id),
            Self::ChromaSubsamplingVert(val) => (EbmlId::ChromaSubsamplingVert, val.index, val.id),
            Self::CbSubsamplingHorz(val) => (EbmlId::CbSubsamplingHorz, val.index, val.id),
            Self::CbSubsamplingVert(val) => (EbmlId::CbSubsamplingVert, val.index, val.id),
            Self::ChromaSitingHorz(val) => (EbmlId::ChromaSitingHorz, val.index, val.id),
            Self::ChromaSitingVert(val) => (EbmlId::ChromaSitingVert, val.index, val.id),
            Self::Range(val) => (EbmlId::Range, val.index, val.id),
            Self::TransferCharacteristics(val) => (EbmlId::TransferCharacteristics, val.index, val.id),
            Self::Primaries(val) => (EbmlId::Primaries, val.index, val.id),
            Self::MaxCll(val) => (EbmlId::MaxCll, val.index, val.id),
            Self::MaxFall(val) => (EbmlId::MaxFall, val.index, val.id),
            Self::StructingMetadata(val) => (EbmlId::StructingMetadata, val.index, val.id),
        }
    }

    /// Write this child's frame.
    #[verifier::rlimit(60)]
    #[verifier::spinoff_prover]
    pub fn write_el(&self, w: &mut Vec<u8>) -> (r: Result<usize, MatroskaError>)
        ensures
            r is Ok <==> el_ok(self.model()),
            r is Ok ==> final(w)@ == old(w)@ + el_bytes(self.model())
                && r->Ok_0 == el_bytes(self.model()).len(),
            r is Err ==> final(w)@ == old(w)@ && r->Err_0 is InvalidVarIntMoreThanVintMax,
    {
        match self {
            Self::MatrixCoefficients(val) => crate::io::write_el_uint(w, 0x55B1, &*val.v),
            Self::BitsPerChannel(val) => crate::io::write_el_uint(w, 0x55B2, &*val.v),
            Self::ChromaSubsamplingHorz(val) => crate::io::write_el_uint(w, 0x55B3, &*val.v),
            Self::ChromaSubsamplingVert(val) => crate::io::write_el_uint(w, 0x55B4, &*val.v),
            Self::CbSubsamplingHorz(val) => crate::io::write_el_uint(w, 0x55B5, &*val.v),
            Self::CbSubsamplingVert(val) => crate::io::write_el_uint(w, 0x55B6, &*val.v),
            Self::ChromaSitingHorz(val) => crate::io::write_el_uint(w, 0x55B7, &*val.v),
            Self::ChromaSitingVert(val) => crate::io::write_el_uint(w, 0x55B8, &*val.v),
            Self::Range(val) => crate::io::write_el_uint(w, 0x55B9, &*val.v),
            Self::TransferCharacteristics(val) => crate::io::write_el_uint(w, 0x55BA, &*val.v),
            Self::Primaries(val) => crate::io::write_el_uint(w, 0x55BB, &*val.v),
            Self::MaxCll(val) => crate::io::write_el_uint(w, 0x55BC, &*val.v),
            Self::MaxFall(val) => crate::io::write_el_uint(w, 0x55BD, &*val.v),
            Self::StructingMetadata(val) => (*val.v).write_blocking(w),
        }
    }
}

impl EbmlField for ColourFields {
    open spec fn model(&self) -> FieldModel {
        match self {
            Self::MatrixCoefficients(e) => FieldModel::UInt { id: 0x55B1, idx: e.index, key: e.id, v: *e.v },
            Self::BitsPerChannel(e) => FieldModel::UInt { id: 0x55B2, idx: e.index, key: e.id, v: *e.v },
            Self::ChromaSubsamplingHorz(e) => FieldModel::UInt { id: 0x55B3, idx: e.index, key: e.id, v: *e.v },
            Self::ChromaSubsamplingVert(e) => FieldModel::UInt { id: 0x55B4, idx: e.index, key: e.id, v: *e.v },
            Self::CbSubsamplingHorz(e) => FieldModel::UInt { id: 0x55B5, idx: e.index, key: e.id, v: *e.v },
            Self::CbSubsamplingVert(e) => FieldModel::UInt { id: 0x55B6, idx: e.index, key: e.id, v: *e.v },
            Self::ChromaSitingHorz(e) => FieldModel::UInt { id: 0x55B7, idx: e.index, key: e.id, v: *e.v },
            Self::ChromaSitingVert(e) => FieldModel::UInt { id: 0x55B8, idx: e.index, key: e.id, v: *e.v },
            Self::Range(e) => FieldModel::UInt { id: 0x55B9, idx: e.index, key: e.id, v: *e.v },
            Self::TransferCharacteristics(e) => FieldModel::UInt { id: 0x55BA, idx: e.index, key: e.id, v: *e.v },
            Self::Primaries(e) => FieldModel::UInt { id: 0x55BB, idx: e.index, key: e.id, v: *e.v },
            Self::MaxCll(e) => FieldModel::UInt { id: 0x55BC, idx: e.index, key: e.id, v: *e.v },
            Self::MaxFall(e) => FieldModel::UInt { id: 0x55BD, idx: e.index, key: e.id, v: *e.v },
            Self::StructingMetadata(e) => FieldModel::Node { id: 0x55D0, idx: e.index, key: e.id, children: (*e.v).model() },
        }
    }

    fn sort_key(&self) -> (r: (Option<u64>, u64)) {
        match self {
            Self::MatrixCoefficients(e) => (e.index, e.id),
            Self::BitsPerChannel(e) => (e.index, e.id),
            Self::ChromaSubsamplingHorz(e) => (e.index, e.id),
            Self::ChromaSubsamplingVert(e) => (e.index, e.id),
            Self::CbSubsamplingHorz(e) => (e.index, e.id),
            Self::CbSubsamplingVert(e) => (e.index, e.id),
            Self::ChromaSitingHorz(e) => (e.index, e.id),
            Self::ChromaSitingVert(e) => (e.index, e.id),
            Self::Range(e) => (e.index, e.id),
            Self::TransferCharacteristics(e) => (e.index, e.id),
            Self::Primaries(e) => (e.index, e.id),
            Self::MaxCll(e) => (e.index, e.id),
            Self::MaxFall(e) => (e.index, e.id),
            Self::StructingMetadata(e) => (e.index, e.id),
        }
    }
}

/// The `StructingMetadata` structural element.
#[derive(Debug)]
pub struct StructingMetadata {
    pub size: u64,
    /// A float on the wire, held as its IEEE-754 f64 bit pattern; convert
    /// with `f64::to_bits` and `f64::from_bits`.
    pub primary_r_chromaticity_x: Option<Ebml<u64>>,
    /// A float on the wire, held as its IEEE-754 f64 bit pattern; convert
    /// with `f64::to_bits` and `f64::from_bits`.
    pub primary_r_chromaticity_y: Option<Ebml<u64>>,
    /// A float on the wire, held as its IEEE-754 f64 bit pattern; convert
    /// with `f64::to_bits` and `f64::from_bits`.
    pub primary_g_chromaticity_x: Option<Ebml<u64>>,
    /// A float on the wire, held as its IEEE-754 f64 bit pattern; convert
    /// with `f64::to_bits` and `f64::from_bits`.
    pub primary_g_chromaticity_y: Option<Ebml<u64>>,
    /// A float on the wire, held as its IEEE-754 f64 bit pattern; convert
    /// with `f64::to_bits` and `f64::from_bits`.
    pub primary_b_chromaticity_x: Option<Ebml<u64>>,
    /// A float on the wire, held as its IEEE-754 f64 bit pattern; convert
    /// with `f64::to_bits` and `f64::from_bits`.
    pub primary_b_chromaticity_y: Option<Ebml<u64>>,
    /// A float on the wire, held as its IEEE-754 f64 bit pattern; convert
    /// with `f64::to_bits` and `f64::from_bits`.
    pub white_point_chromaticity_x: Option<Ebml<u64>>,
    /// A float on the wire, held as its IEEE-754 f64 bit pattern; convert
    /// with `f64::to_bits` and `f64::from_bits`.
    pub white_point_chromaticity_y: Option<Ebml<u64>>,
    /// A float on the wire, held as its IEEE-754 f64 bit pattern; convert
    /// with `f64::to_bits` and `f64::from_bits`.
    pub luminance_max: Option<Ebml<u64>>,
    /// A float on the wire, held as its IEEE-754 f64 bit pattern; convert
    /// with `f64::to_bits` and `f64::from_bits`.
    pub luminance_min: Option<Ebml<u64>>,
}

impl StructingMetadata {
    /// The models of the children, in declaration order.
    #[verifier::opaque]
    pub open spec fn raw_model(self) -> Seq<FieldModel>
    {
        (match self.primary_r_chromaticity_x { Some(e) => seq![FieldModel::Flt64 { id: 0x55D1, idx: e.index, key: e.id, bits: *e.v }], None => Seq::empty() })
            + (match self.primary_r_chromaticity_y { Some(e) => seq![FieldModel::Flt64 { id: 0x55D2, idx: e.index, key: e.id, bits: *e.v }], None => Seq::empty() })
            + (match self.primary_g_chromaticity_x { Some(e) => seq![FieldModel::Flt64 { id: 0x55D3, idx: e.index, key: e.id, bits: *e.v }], None => Seq::empty() })
            + (match self.primary_g_chromaticity_y { Some(e) => seq![FieldModel::Flt64 { id: 0x55D4, idx: e.index, key: e.id, bits: *e.v }], None => Seq::empty() })
            + (match self.primary_b_chromaticity_x { Some(e) => seq![FieldModel::Flt64 { id: 0x55D5, idx: e.index, key: e.id, bits: *e.v }], None => Seq::empty() })
            + (match self.primary_b_chromaticity_y { Some(e) => seq![FieldModel::Flt64 { id: 0x55D6, idx: e.index, key: e.id, bits: *e.v }], None => Seq::empty() })
            + (match self.white_point_chromaticity_x { Some(e) => seq![FieldModel::Flt64 { id: 0x55D7, idx: e.index, key: e.id, bits: *e.v }], None => Seq::empty() })
            + (match self.white_point_chromaticity_y { Some(e) => seq![FieldModel::Flt64 { id: 0x55D8, idx: e.index, key: e.id, bits: *e.v }], None => Seq::empty() })
            + (match self.luminance_max { Some(e) => seq![FieldModel::Flt64 { id: 0x55D9, idx: e.index, key: e.id, bits: *e.v }], None => Seq::empty() })
            + (match self.luminance_min { Some(e) => seq![FieldModel::Flt64 { id: 0x55DA, idx: e.index, key: e.id, bits: *e.v }], None => Seq::empty() })
    }

    /// The children in emission order.
    #[verifier::opaque]
    pub open spec fn model(self) -> Seq<FieldModel>
    {
        sort_fields_spec(self.raw_model())
    }

    /// Append the `primary_r_chromaticity_x` child values to a field run.
    #[verifier::loop_isolation(false)]
    fn push_primary_r_chromaticity_x(&self, v: &mut Vec<StructingMetadataFields>)
        ensures
            models_of::<StructingMetadataFields>(final(v)@) == models_of::<StructingMetadataFields>(old(v)@) + (match &self.primary_r_chromaticity_x { Some(e) => seq![FieldModel::Flt64 { id: 0x55D1, idx: e.index, key: e.id, bits: *e.v }], None => Seq::empty() }),
    {
        match &self.primary_r_chromaticity_x {
            Some(e) => {
                let ghost prevv = v@;
                v.push(StructingMetadataFields::PrimaryRChromaticityX(crate::dup_ebml_copy(e)));
                proof {
                    assert(models_of::<StructingMetadataFields>(v@) =~= models_of::<StructingMetadataFields>(prevv).push(v@.last().model()));
                    assert(models_of::<StructingMetadataFields>(prevv).push(v@.last().model()) =~= models_of::<StructingMetadataFields>(prevv) + (match &self.primary_r_chromaticity_x { Some(e) => seq![FieldModel::Flt64 { id: 0x55D1, idx: e.index, key: e.id, bits: *e.v }], None => Seq::empty() }));
                }
            },
            None => {
                proof {
                    assert(models_of::<StructingMetadataFields>(v@) =~= models_of::<StructingMetadataFields>(v@) + (match &self.primary_r_chromaticity_x { Some(e) => seq![FieldModel::Flt64 { id: 0x55D1, idx: e.index, key: e.id, bits: *e.v }], None => Seq::empty() }));
                }
            },
        }
    }

    /// Append the `primary_r_chromaticity_y` child values to a field run.
    #[verifier::loop_isolation(false)]
    fn push_primary_r_chromaticity_y(&self, v: &mut Vec<StructingMetadataFields>)
        ensures
            models_of::<StructingMetadataFields>(final(v)@) == models_of::<StructingMetadataFields>(old(v)@) + (match &self.primary_r_chromaticity_y { Some(e) => seq![FieldModel::Flt64 { id: 0x55D2, idx: e.index, key: e.id, bits: *e.v }], None => Seq::empty() }),
    {
        match &self.primary_r_chromaticity_y {
            Some(e) => {
                let ghost prevv = v@;
                v.push(StructingMetadataFields::PrimaryRChromaticityY(crate::dup_ebml_copy(e)));
                proof {
                    assert(models_of::<StructingMetadataFields>(v@) =~= models_of::<StructingMetadataFields>(prevv).push(v@.last().model()));
                    assert(models_of::<StructingMetadataFields>(prevv).push(v@.last().model()) =~= models_of::<StructingMetadataFields>(prevv) + (match &self.primary_r_chromaticity_y { Some(e) => seq![FieldModel::Flt64 { id: 0x55D2, idx: e.index, key: e.id, bits: *e.v }], None => Seq::empty() }));
                }
            },
            None => {
                proof {
                    assert(models_of::<StructingMetadataFields>(v@) =~= models_of::<StructingMetadataFields>(v@) + (match &self.primary_r_chromaticity_y { Some(e) => seq![FieldModel::Flt64 { id: 0x55D2, idx: e.index, key: e.id, bits: *e.v }], None => Seq::empty() }));
                }
            },
        }
    }

    /// Append the `primary_g_chromaticity_x` child values to a field run.
    #[verifier::loop_isolation(false)]
    fn push_primary_g_chromaticity_x(&self, v: &mut Vec<StructingMetadataFields>)
        ensures
            models_of::<StructingMetadataFields>(final(v)@) == models_of::<StructingMetadataFields>(old(v)@) + (match &self.primary_g_chromaticity_x { Some(e) => seq![FieldModel::Flt64 { id: 0x55D3, idx: e.index, key: e.id, bits: *e.v }], None => Seq::empty() }),
    {
        match &self.primary_g_chromaticity_x {
            Some(e) => {
                let ghost prevv = v@;
                v.push(StructingMetadataFields::PrimaryGChromaticityX(crate::dup_ebml_copy(e)));
                proof {
                    assert(models_of::<StructingMetadataFields>(v@) =~= models_of::<StructingMetadataFields>(prevv).push(v@.last().model()));
                    assert(models_of::<StructingMetadataFields>(prevv).push(v@.last().model()) =~= models_of::<StructingMetadataFields>(prevv) + (match &self.primary_g_chromaticity_x { Some(e) => seq![FieldModel::Flt64 { id: 0x55D3, idx: e.index, key: e.id, bits: *e.v }], None => Seq::empty() }));
                }
            },
            None => {
                proof {
                    assert(models_of::<StructingMetadataFields>(v@) =~= models_of::<StructingMetadataFields>(v@) + (match &self.primary_g_chromaticity_x { Some(e) => seq![FieldModel::Flt64 { id: 0x55D3, idx: e.index, key: e.id, bits: *e.v }], None => Seq::empty() }));
                }
            },
        }
    }

    /// Append the `primary_g_chromaticity_y` child values to a field run.
    #[verifier::loop_isolation(false)]
    fn push_primary_g_chromaticity_y(&self, v: &mut Vec<StructingMetadataFields>)
        ensures
            models_of::<StructingMetadataFields>(final(v)@) == models_of::<StructingMetadataFields>(old(v)@) + (match &self.primary_g_chromaticity_y { Some(e) => seq![FieldModel::Flt64 { id: 0x55D4, idx: e.index, key: e.id, bits: *e.v }], None => Seq::empty() }),
    {
        match &self.primary_g_chromaticity_y {
            Some(e) => {
                let ghost prevv = v@;
                v.push(StructingMetadataFields::PrimaryGChromaticityY(crate::dup_ebml_copy(e)));
                proof {
                    assert(models_of::<StructingMetadataFields>(v@) =~= models_of::<StructingMetadataFields>(prevv).push(v@.last().model()));
                    assert(models_of::<StructingMetadataFields>(prevv).push(v@.last().model()) =~= models_of::<StructingMetadataFields>(prevv) + (match &self.primary_g_chromaticity_y { Some(e) => seq![FieldModel::Flt64 { id: 0x55D4, idx: e.index, key: e.id, bits: *e.v }], None => Seq::empty() }));
                }
            },
            None => {
                proof {
                    assert(models_of::<StructingMetadataFields>(v@) =~= models_of::<StructingMetadataFields>(v@) + (match &self.primary_g_chromaticity_y { Some(e) => seq![FieldModel::Flt64 { id: 0x55D4, idx: e.index, key: e.id, bits: *e.v }], None => Seq::empty() }));
                }
            },
        }
    }

    /// Append the `primary_b_chromaticity_x` child values to a field run.
    #[verifier::loop_isolation(false)]
    fn push_primary_b_chromaticity_x(&self, v: &mut Vec<StructingMetadataFields>)
        ensures
            models_of::<StructingMetadataFields>(final(v)@) == models_of::<StructingMetadataFields>(old(v)@) + (match &self.primary_b_chromaticity_x { Some(e) => seq![FieldModel::Flt64 { id: 0x55D5, idx: e.index, key: e.id, bits: *e.v }], None => Seq::empty() }),
    {
        match &self.primary_b_chromaticity_x {
            Some(e) => {
                let ghost prevv = v@;
                v.push(StructingMetadataFields::PrimaryBChromaticityX(crate::dup_ebml_copy(e)));
                proof {
                    assert(models_of::<StructingMetadataFields>(v@) =~= models_of::<StructingMetadataFields>(prevv).push(v@.last().model()));
                    assert(models_of::<StructingMetadataFields>(prevv).push(v@.last().model()) =~= models_of::<StructingMetadataFields>(prevv) + (match &self.primary_b_chromaticity_x { Some(e) => seq![FieldModel::Flt64 { id: 0x55D5, idx: e.index, key: e.id, bits: *e.v }], None => Seq::empty() }));
                }
            },
            None => {
                proof {
                    assert(models_of::<StructingMetadataFields>(v@) =~= models_of::<StructingMetadataFields>(v@) + (match &self.primary_b_chromaticity_x { Some(e) => seq![FieldModel::Flt64 { id: 0x55D5, idx: e.index, key: e.id, bits: *e.v }], None => Seq::empty() }));
                }
            },
        }
    }

    /// Append the `primary_b_chromaticity_y` child values to a field run.
    #[verifier::loop_isolation(false)]
    fn push_primary_b_chromaticity_y(&self, v: &mut Vec<StructingMetadataFields>)
        ensures
            models_of::<StructingMetadataFields>(final(v)@) == models_of::<StructingMetadataFields>(old(v)@) + (match &self.primary_b_chromaticity_y { Some(e) => seq![FieldModel::Flt64 { id: 0x55D6, idx: e.index, key: e.id, bits: *e.v }], None => Seq::empty() }),
    {
        match &self.primary_b_chromaticity_y {
            Some(e) => {
                let ghost prevv = v@;
                v.push(StructingMetadataFields::PrimaryBChromaticityY(crate::dup_ebml_copy(e)));
                proof {
                    assert(models_of::<StructingMetadataFields>(v@) =~= models_of::<StructingMetadataFields>(prevv).push(v@.last().model()));
                    assert(models_of::<StructingMetadataFields>(prevv).push(v@.last().model()) =~= models_of::<StructingMetadataFields>(prevv) + (match &self.primary_b_chromaticity_y { Some(e) => seq![FieldModel::Flt64 { id: 0x55D6, idx: e.index, key: e.id, bits: *e.v }], None => Seq::empty() }));
                }
            },
            None => {
                proof {
                    assert(models_of::<StructingMetadataFields>(v@) =~= models_of::<StructingMetadataFields>(v@) + (match &self.primary_b_chromaticity_y { Some(e) => seq![FieldModel::Flt64 { id: 0x55D6, idx: e.index, key: e.id, bits: *e.v }], None => Seq::empty() }));
                }
            },
        }
    }

    /// Append the `white_point_chromaticity_x` child values to a field run.
    #[verifier::loop_isolation(false)]
    fn push_white_point_chromaticity_x(&self, v: &mut Vec<StructingMetadataFields>)
        ensures
            models_of::<StructingMetadataFields>(final(v)@) == models_of::<StructingMetadataFields>(old(v)@) + (match &self.white_point_chromaticity_x { Some(e) => seq![FieldModel::Flt64 { id: 0x55D7, idx: e.index, key: e.id, bits: *e.v }], None => Seq::empty() }),
    {
        match &self.white_point_chromaticity_x {
            Some(e) => {
                let ghost prevv = v@;
                v.push(StructingMetadataFields::WhitePointChromaticityX(crate::dup_ebml_copy(e)));
                proof {
                    assert(models_of::<StructingMetadataFields>(v@) =~= models_of::<StructingMetadataFields>(prevv).push(v@.last().model()));
                    assert(models_of::<StructingMetadataFields>(prevv).push(v@.last().model()) =~= models_of::<StructingMetadataFields>(prevv) + (match &self.white_point_chromaticity_x { Some(e) => seq![FieldModel::Flt64 { id: 0x55D7, idx: e.index, key: e.id, bits: *e.v }], None => Seq::empty() }));
                }
            },
            None => {
                proof {
                    assert(models_of::<StructingMetadataFields>(v@) =~= models_of::<StructingMetadataFields>(v@) + (match &self.white_point_chromaticity_x { Some(e) => seq![FieldModel::Flt64 { id: 0x55D7, idx: e.index, key: e.id, bits: *e.v }], None => Seq::empty() }));
                }
            },
        }
    }

    /// Append the `white_point_chromaticity_y` child values to a field run.
    #[verifier::loop_isolation(false)]
    fn push_white_point_chromaticity_y(&self, v: &mut Vec<StructingMetadataFields>)
        ensures
            models_of::<StructingMetadataFields>(final(v)@) == models_of::<StructingMetadataFields>(old(v)@) + (match &self.white_point_chromaticity_y { Some(e) => seq![FieldModel::Flt64 { id: 0x55D8, idx: e.index, key: e.id, bits: *e.v }], None => Seq::empty() }),
    {
        match &self.white_point_chromaticity_y {
            Some(e) => {
                let ghost prevv = v@;
                v.push(StructingMetadataFields::WhitePointChromaticityY(crate::dup_ebml_copy(e)));
                proof {
                    assert(models_of::<StructingMetadataFields>(v@) =~= models_of::<StructingMetadataFields>(prevv).push(v@.last().model()));
                    assert(models_of::<StructingMetadataFields>(prevv).push(v@.last().model()) =~= models_of::<StructingMetadataFields>(prevv) + (match &self.white_point_chromaticity_y { Some(e) => seq![FieldModel::Flt64 { id: 0x55D8, idx: e.index, key: e.id, bits: *e.v }], None => Seq::empty() }));
                }
            },
            None => {
                proof {
                    assert(models_of::<StructingMetadataFields>(v@) =~= models_of::<StructingMetadataFields>(v@) + (match &self.white_point_chromaticity_y { Some(e) => seq![FieldModel::Flt64 { id: 0x55D8, idx: e.index, key: e.id, bits: *e.v }], None => Seq::empty() }));
                }
            },
        }
    }

    /// Append the `luminance_max` child values to a field run.
    #[verifier::loop_isolation(false)]
    fn push_luminance_max(&self, v: &mut Vec<StructingMetadataFields>)
        ensures
            models_of::<StructingMetadataFields>(final(v)@) == models_of::<StructingMetadataFields>(old(v)@) + (match &self.luminance_max { Some(e) => seq![FieldModel::Flt64 { id: 0x55D9, idx: e.index, key: e.id, bits: *e.v }], None => Seq::empty() }),
    {
        match &self.luminance_max {
            Some(e) => {
                let ghost prevv = v@;
                v.push(StructingMetadataFields::LuminanceMax(crate::dup_ebml_copy(e)));
                proof {
                    assert(models_of::<StructingMetadataFields>(v@) =~= models_of::<StructingMetadataFields>(prevv).push(v@.last().model()));
                    assert(models_of::<StructingMetadataFields>(prevv).push(v@.last().model()) =~= models_of::<StructingMetadataFields>(prevv) + (match &self.luminance_max { Some(e) => seq![FieldModel::Flt64 { id: 0x55D9, idx: e.index, key: e.id, bits: *e.v }], None => Seq::empty() }));
                }
            },
            None => {
                proof {
                    assert(models_of::<StructingMetadataFields>(v@) =~= models_of::<StructingMetadataFields>(v@) + (match &self.luminance_max { Some(e) => seq![FieldModel::Flt64 { id: 0x55D9, idx: e.index, key: e.id, bits: *e.v }], None => Seq::empty() }));
                }
            },
        }
    }

    /// Append the `luminance_min` child values to a field run.
    #[verifier::loop_isolation(false)]
    fn push_luminance_min(&self, v: &mut Vec<StructingMetadataFields>)
        ensures
            models_of::<StructingMetadataFields>(final(v)@) == models_of::<StructingMetadataFields>(old(v)@) + (match &self.luminance_min { Some(e) => seq![FieldModel::Flt64 { id: 0x55DA, idx: e.index, key: e.id, bits: *e.v }], None => Seq::empty() }),
    {
        match &self.luminance_min {
            Some(e) => {
                let ghost prevv = v@;
                v.push(StructingMetadataFields::LuminanceMin(crate::dup_ebml_copy(e)));
                proof {
                    assert(models_of::<StructingMetadataFields>(v@) =~= models_of::<StructingMetadataFields>(prevv).push(v@.last().model()));
                    assert(models_of::<StructingMetadataFields>(prevv).push(v@.last().model()) =~= models_of::<StructingMetadataFields>(prevv) + (match &self.luminance_min { Some(e) => seq![FieldModel::Flt64 { id: 0x55DA, idx: e.index, key: e.id, bits: *e.v }], None => Seq::empty() }));
                }
            },
            None => {
                proof {
                    assert(models_of::<StructingMetadataFields>(v@) =~= models_of::<StructingMetadataFields>(v@) + (match &self.luminance_min { Some(e) => seq![FieldModel::Flt64 { id: 0x55DA, idx: e.index, key: e.id, bits: *e.v }], None => Seq::empty() }));
                }
            },
        }
    }

    /// The present children, each paired with its ID, in emission order.
    #[verifier::rlimit(100)]
    #[verifier::spinoff_prover]
    pub fn elements(&self) -> (r: Vec<StructingMetadataFields>)
        ensures
            models_of::<StructingMetadataFields>(r@) == self.model(),
    {
        let mut v: Vec<StructingMetadataFields> = Vec::new();
        proof {
            assert(models_of::<StructingMetadataFields>(v@) =~= Seq::<FieldModel>::empty());
        }
        self.push_primary_r_chromaticity_x(&mut v);
        self.push_primary_r_chromaticity_y(&mut v);
        self.push_primary_g_chromaticity_x(&mut v);
        self.push_primary_g_chromaticity_y(&mut v);
        self.push_primary_b_chromaticity_x(&mut v);
        self.push_primary_b_chromaticity_y(&mut v);
        self.push_white_point_chromaticity_x(&mut v);
        self.push_white_point_chromaticity_y(&mut v);
        self.push_luminance_max(&mut v);
        self.push_luminance_min(&mut v);
        proof {
            reveal(StructingMetadata::raw_model);
            reveal(StructingMetadata::model);
            assert(Seq::<FieldModel>::empty() + (match &self.primary_r_chromaticity_x { Some(e) => seq![FieldModel::Flt64 { id: 0x55D1, idx: e.index, key: e.id, bits: *e.v }], None => Seq::empty() }) =~= (match &self.primary_r_chromaticity_x { Some(e) => seq![FieldModel::Flt64 { id: 0x55D1, idx: e.index, key: e.id, bits: *e.v }], None => Seq::empty() }));
            assert(models_of::<StructingMetadataFields>(v@) == self.raw_model());
        }
        sort_fields(v)
    }

    /// A deep copy of the `primary_r_chromaticity_x` slot.
    #[verifier::loop_isolation(false)]
    fn dup_primary_r_chromaticity_x(&self) -> (r: Option<Ebml<u64>>)
        ensures
            (match &r { Some(e) => seq![FieldModel::Flt64 { id: 0x55D1, idx: e.index, key: e.id, bits: *e.v }], None => Seq::empty() }) == (match &self.primary_r_chromaticity_x { Some(e) => seq![FieldModel::Flt64 { id: 0x55D1, idx: e.index, key: e.id, bits: *e.v }], None => Seq::empty() }),
    {
        match &self.primary_r_chromaticity_x {
            Some(e) => Some(crate::dup_ebml_copy(e)),
            None => None,
        }
    }

    /// A deep copy of the `primary_r_chromaticity_y` slot.
    #[verifier::loop_isolation(false)]
    fn dup_primary_r_chromaticity_y(&self) -> (r: Option<Ebml<u64>>)
        ensures
            (match &r { Some(e) => seq![FieldModel::Flt64 { id: 0x55D2, idx: e.index, key: e.id, bits: *e.v }], None => Seq::empty() }) == (match &self.primary_r_chromaticity_y { Some(e) => seq![FieldModel::Flt64 { id: 0x55D2, idx: e.index, key: e.id, bits: *e.v }], None => Seq::empty() }),
    {
        match &self.primary_r_chromaticity_y {
            Some(e) => Some(crate::dup_ebml_copy(e)),
            None => None,
        }
    }

    /// A deep copy of the `primary_g_chromaticity_x` slot.
    #[verifier::loop_isolation(false)]
    fn dup_primary_g_chromaticity_x(&self) -> (r: Option<Ebml<u64>>)
        ensures
            (match &r { Some(e) => seq![FieldModel::Flt64 { id: 0x55D3, idx: e.index, key: e.id, bits: *e.v }], None => Seq::empty() }) == (match &self.primary_g_chromaticity_x { Some(e) => seq![FieldModel::Flt64 { id: 0x55D3, idx: e.index, key: e.id, bits: *e.v }], None => Seq::empty() }),
    {
        match &self.primary_g_chromaticity_x {
            Some(e) => Some(crate::dup_ebml_copy(e)),
            None => None,
        }
    }

    /// A deep copy of the `primary_g_chromaticity_y` slot.
    #[verifier::loop_isolation(false)]
    fn dup_primary_g_chromaticity_y(&self) -> (r: Option<Ebml<u64>>)
        ensures
            (match &r { Some(e) => seq![FieldModel::Flt64 { id: 0x55D4, idx: e.index, key: e.id, bits: *e.v }], None => Seq::empty() }) == (match &self.primary_g_chromaticity_y { Some(e) => seq![FieldModel::Flt64 { id: 0x55D4, idx: e.index, key: e.id, bits: *e.v }], None => Seq::empty() }),
    {
        match &self.primary_g_chromaticity_y {
            Some(e) => Some(crate::dup_ebml_copy(e)),
            None => None,
        }
    }

    /// A deep copy of the `primary_b_chromaticity_x` slot.
    #[verifier::loop_isolation(false)]
    fn dup_primary_b_chromaticity_x(&self) -> (r: Option<Ebml<u64>>)
        ensures
            (match &r { Some(e) => seq![FieldModel::Flt64 { id: 0x55D5, idx: e.index, key: e.id, bits: *e.v }], None => Seq::empty() }) == (match &self.primary_b_chromaticity_x { Some(e) => seq![FieldModel::Flt64 { id: 0x55D5, idx: e.index, key: e.id, bits: *e.v }], None => Seq::empty() }),
    {
        match &self.primary_b_chromaticity_x {
            Some(e) => Some(crate::dup_ebml_copy(e)),
            None => None,
        }
    }

    /// A deep copy of the `primary_b_chromaticity_y` slot.
    #[verifier::loop_isolation(false)]
    fn dup_primary_b_chromaticity_y(&self) -> (r: Option<Ebml<u64>>)
        ensures
            (match &r { Some(e) => seq![FieldModel::Flt64 { id: 0x55D6, idx: e.index, key: e.id, bits: *e.v }], None => Seq::empty() }) == (match &self.primary_b_chromaticity_y { Some(e) => seq![FieldModel::Flt64 { id: 0x55D6, idx: e.index, key: e.id, bits: *e.v }], None => Seq::empty() }),
    {
        match &self.primary_b_chromaticity_y {
            Some(e) => Some(crate::dup_ebml_copy(e)),
            None => None,
        }
    }

    /// A deep copy of the `white_point_chromaticity_x` slot.
    #[verifier::loop_isolation(false)]
    fn dup_white_point_chromaticity_x(&self) -> (r: Option<Ebml<u64>>)
        ensures
            (match &r { Some(e) => seq![FieldModel::Flt64 { id: 0x55D7, idx: e.index, key: e.id, bits: *e.v }], None => Seq::empty() }) == (match &self.white_point_chromaticity_x { Some(e) => seq![FieldModel::Flt64 { id: 0x55D7, idx: e.index, key: e.id, bits: *e.v }], None => Seq::empty() }),
    {
        match &self.white_point_chromaticity_x {
            Some(e) => Some(crate::dup_ebml_copy(e)),
            None => None,
        }
    }

    /// A deep copy of the `white_point_chromaticity_y` slot.
    #[verifier::loop_isolation(false)]
    fn dup_white_point_chromaticity_y(&self) -> (r: Option<Ebml<u64>>)
        ensures
            (match &r { Some(e) => seq![FieldModel::Flt64 { id: 0x55D8, idx: e.index, key: e.id, bits: *e.v }], None => Seq::empty() }) == (match &self.white_point_chromaticity_y { Some(e) => seq![FieldModel::Flt64 { id: 0x55D8, idx: e.index, key: e.id, bits: *e.v }], None => Seq::empty() }),
    {
        match &self.white_point_chromaticity_y {
            Some(e) => Some(crate::dup_ebml_copy(e)),
            None => None,
        }
    }

    /// A deep copy of the `luminance_max` slot.
    #[verifier::loop_isolation(false)]
    fn dup_luminance_max(&self) -> (r: Option<Ebml<u64>>)
        ensures
            (match &r { Some(e) => seq![FieldModel::Flt64 { id: 0x55D9, idx: e.index, key: e.id, bits: *e.v }], None => Seq::empty() }) == (match &self.luminance_max { Some(e) => seq![FieldModel::Flt64 { id: 0x55D9, idx: e.index, key: e.id, bits: *e.v }], None => Seq::empty() }),
    {
        match &self.luminance_max {
            Some(e) => Some(crate::dup_ebml_copy(e)),
            None => None,
        }
    }

    /// A deep copy of the `luminance_min` slot.
    #[verifier::loop_isolation(false)]
    fn dup_luminance_min(&self) -> (r: Option<Ebml<u64>>)
        ensures
            (match &r { Some(e) => seq![FieldModel::Flt64 { id: 0x55DA, idx: e.index, key: e.id, bits: *e.v }], None => Seq::empty() }) == (match &self.luminance_min { Some(e) => seq![FieldModel::Flt64 { id: 0x55DA, idx: e.index, key: e.id, bits: *e.v }], None => Seq::empty() }),
    {
        match &self.luminance_min {
            Some(e) => Some(crate::dup_ebml_copy(e)),
            None => None,
        }
    }

    /// A deep copy with the same children, positions, and keys.
    #[verifier::rlimit(100)]
    #[verifier::spinoff_prover]
    pub fn duplicate(&self) -> (r: Self)
        ensures
            r.raw_model() == self.raw_model(),
            r.size == self.size,
    {
        let r = StructingMetadata {
            size: self.size,
            primary_r_chromaticity_x: self.dup_primary_r_chromaticity_x(),
            primary_r_chromaticity_y: self.dup_primary_r_chromaticity_y(),
            primary_g_chromaticity_x: self.dup_primary_g_chromaticity_x(),
            primary_g_chromaticity_y: self.dup_primary_g_chromaticity_y(),
            primary_b_chromaticity_x: self.dup_primary_b_chromaticity_x(),
            primary_b_chromaticity_y: self.dup_primary_b_chromaticity_y(),
            white_point_chromaticity_x: self.dup_white_point_chromaticity_x(),
            white_point_chromaticity_y: self.dup_white_point_chromaticity_y(),
            luminance_max: self.dup_luminance_max(),
            luminance_min: self.dup_luminance_min(),
        };
        proof {
            reveal(StructingMetadata::raw_model);
            assert(r.raw_model() == self.raw_model());
        }
        r
    }
}

impl StructingMetadata {
    /// Serialise the whole element: body to a scratch buffer first, then
    /// the header with the now-known length, then the body.
    pub fn write_blocking(&self, w: &mut Vec<u8>) -> (r: Result<usize, MatroskaError>)
        ensures
            r is Ok <==> body_ok_rec(self.model()) && cat_bytes(self.model()).len() < 0xFFFFFFFFFFFFFF,
            r is Ok ==> final(w)@ == old(w)@ + node_frame_bytes(0x55D0, cat_bytes(self.model()))
                && r->Ok_0 == node_frame_bytes(0x55D0, cat_bytes(self.model())).len(),
            r is Err ==> final(w)@ == old(w)@ && r->Err_0 is InvalidVarIntMoreThanVintMax,
    {
        let mut buf: Vec<u8> = Vec::new();
        match self.write_body_blocking(&mut buf) {
            Ok(_) => {},
            Err(e) => {
                return Err(e);
            },
        }
        let start = w.len();
        match crate::io::write_element_id_size(w, 0x55D0, buf.len() as u64) {
            Ok(_) => {},
            Err(e) => {
                return Err(e);
            },
        }
        w.append(&mut buf);
        Ok(w.len() - start)
    }

    /// Write this element's header with the given body size.
    pub fn write_header_blocking(&self, w: &mut Vec<u8>, size: u64) -> (r: Result<usize, MatroskaError>)
        ensures
            r is Ok <==> crate::io::size_encodable(size),
            r is Ok ==> final(w)@ == old(w)@ + crate::io::header_bytes(0x55D0, size)
                && r->Ok_0 == crate::io::header_bytes(0x55D0, size).len(),
            r is Err ==> final(w)@ == old(w)@ && r->Err_0 is InvalidVarIntMoreThanVintMax,
    {
        crate::io::write_element_id_size(w, 0x55D0, size)
    }

    /// Write the body: every present child, in emission order.
    #[verifier::loop_isolation(false)]
    #[verifier::rlimit(60)]
    #[verifier::spinoff_prover]
    pub fn write_body_blocking(&self, w: &mut Vec<u8>) -> (r: Result<usize, MatroskaError>)
        ensures
            r is Ok <==> body_ok_rec(self.model()),
            r is Ok ==> final(w)@ == old(w)@ + cat_bytes(self.model())
                && r->Ok_0 == cat_bytes(self.model()).len(),
            r is Err ==> r->Err_0 is InvalidVarIntMoreThanVintMax,
    {
        let fields = self.elements();
        let start = w.len();
        let ghost ms = self.model();
        let mut i: usize = 0;
        while i < fields.len()
            invariant
                i <= fields@.len(),
                models_of::<StructingMetadataFields>(fields@) == ms,
                w@ == old(w)@ + cat_bytes(ms.take(i as int)),
                body_ok_rec(ms.take(i as int)),
            decreases fields@.len() - i,
        {
            proof {
                assert(models_of::<StructingMetadataFields>(fields@)[i as int] == ms[i as int]);
            }
            match fields[i].write_el(w) {
                Ok(_) => {},
                Err(e) => {
                    proof {
                        lemma_body_ok_forall(ms);
                    }
                    return Err(e);
                },
            }
            proof {
                assert(ms.take(i + 1) =~= ms.take(i as int).push(ms[i as int]));
                lemma_cat_snoc(ms.take(i as int), ms[i as int]);
            }
            i += 1;
        }
        proof {
            assert(ms.take(ms.len() as int) =~= ms);
            lemma_body_ok_forall(ms);
        }
        Ok(w.len() - start)
    }
}

/// One present child of a `StructingMetadata`, paired with its value.
#[derive(Debug)]
pub enum StructingMetadataFields {
    PrimaryRChromaticityX(Ebml<u64>),
    PrimaryRChromaticityY(Ebml<u64>),
    PrimaryGChromaticityX(Ebml<u64>),
    PrimaryGChromaticityY(Ebml<u64>),
    PrimaryBChromaticityX(Ebml<u64>),
    PrimaryBChromaticityY(Ebml<u64>),
    WhitePointChromaticityX(Ebml<u64>),
    WhitePointChromaticityY(Ebml<u64>),
    LuminanceMax(Ebml<u64>),
    LuminanceMin(Ebml<u64>),
}

impl StructingMetadataFields {
    /// The child's element ID and its two ordering slots.
    #[verifier::rlimit(60)]
    #[verifier::spinoff_prover]
    pub fn index(&self) -> (r: (EbmlId, Option<u64>, u64))
        ensures
            r.0.spec_u64() == self.model().eid(),
            r.1 == self.model().idx(),
            r.2 == self.model().key(),
    {
        match self {
            Self::PrimaryRChromaticityX(val) => (EbmlId::PrimaryRChromaticityX, val.index, val.id),
            Self::PrimaryRChromaticityY(val) => (EbmlId::PrimaryRChromaticityY, val.index, val.id),
            Self::PrimaryGChromaticityX(val) => (EbmlId::PrimaryGChromaticityX, val.index, val.id),
            Self::PrimaryGChromaticityY(val) => (EbmlId::PrimaryGChromaticityY, val.index, val.id),
            Self::PrimaryBChromaticityX(val) => (EbmlId::PrimaryBChromaticityX, val.index, val.id),
            Self::PrimaryBChromaticityY(val) => (EbmlId::PrimaryBChromaticityY, val.index, val.id),
            Self::WhitePointChromaticityX(val) => (EbmlId::WhitePointChromaticityX, val.index, val.id),
            Self::WhitePointChromaticityY(val) => (EbmlId::WhitePointChromaticityY, val.index, val.id),
            Self::LuminanceMax(val) => (EbmlId::LuminanceMax, val.index, val.id),
            Self::LuminanceMin(val) => (EbmlId::LuminanceMin, val.index, val.id),
        }
    }

    /// Write this child's frame.
    #[verifier::rlimit(60)]
    #[verifier::spinoff_prover]
    pub fn write_el(&self, w: &mut Vec<u8>) -> (r: Result<usize, MatroskaError>)
        ensures
            r is Ok <==> el_ok(self.model()),
            r is Ok ==> final(w)@ == old(w)@ + el_bytes(self.model())
                && r->Ok_0 == el_bytes(self.model()).len(),
            r is Err ==> final(w)@ == old(w)@ && r->Err_0 is InvalidVarIntMoreThanVintMax,
    {
        match self {
            Self::PrimaryRChromaticityX(val) => crate::io::write_el_float64(w, 0x55D1, *val.v),
            Self::PrimaryRChromaticityY(val) => crate::io::write_el_float64(w, 0x55D2, *val.v),
            Self::PrimaryGChromaticityX(val) => crate::io::write_el_float64(w, 0x55D3, *val.v),
            Self::PrimaryGChromaticityY(val) => crate::io::write_el_float64(w, 0x55D4, *val.v),
            Self::PrimaryBChromaticityX(val) => crate::io::write_el_float64(w, 0x55D5, *val.v),
            Self::PrimaryBChromaticityY(val) => crate::io::write_el_float64(w, 0x55D6, *val.v),
            Self::WhitePointChromaticityX(val) => crate::io::write_el_float64(w, 0x55D7, *val.v),
            Self::WhitePointChromaticityY(val) => crate::io::write_el_float64(w, 0x55D8, *val.v),
            Self::LuminanceMax(val) => crate::io::write_el_float64(w, 0x55D9, *val.v),
            Self::LuminanceMin(val) => crate::io::write_el_float64(w, 0x55DA, *val.v),
        }
    }
}

impl EbmlField for StructingMetadataFields {
    open spec fn model(&self) -> FieldModel {
        match self {
            Self::PrimaryRChromaticityX(e) => FieldModel::Flt64 { id: 0x55D1, idx: e.index, key: e.id, bits: *e.v },
            Self::PrimaryRChromaticityY(e) => FieldModel::Flt64 { id: 0x55D2, idx: e.index, key: e.id, bits: *e.v },
            Self::PrimaryGChromaticityX(e) => FieldModel::Flt64 { id: 0x55D3, idx: e.index, key: e.id, bits: *e.v },
            Self::PrimaryGChromaticityY(e) => FieldModel::Flt64 { id: 0x55D4, idx: e.index, key: e.id, bits: *e.v },
            Self::PrimaryBChromaticityX(e) => FieldModel::Flt64 { id: 0x55D5, idx: e.index, key: e.id, bits: *e.v },
            Self::PrimaryBChromaticityY(e) => FieldModel::Flt64 { id: 0x55D6, idx: e.index, key: e.id, bits: *e.v },
            Self::WhitePointChromaticityX(e) => FieldModel::Flt64 { id: 0x55D7, idx: e.index, key: e.id, bits: *e.v },
            Self::WhitePointChromaticityY(e) => FieldModel::Flt64 { id: 0x55D8, idx: e.index, key: e.id, bits: *e.v },
            Self::LuminanceMax(e) => FieldModel::Flt64 { id: 0x55D9, idx: e.index, key: e.id, bits: *e.v },
            Self::LuminanceMin(e) => FieldModel::Flt64 { id: 0x55DA, idx: e.index, key: e.id, bits: *e.v },
        }
    }

    fn sort_key(&self) -> (r: (Option<u64>, u64)) {
        match self {
            Self::PrimaryRChromaticityX(e) => (e.index, e.id),
            Self::PrimaryRChromaticityY(e) => (e.index, e.id),
            Self::PrimaryGChromaticityX(e) => (e.index, e.id),
            Self::PrimaryGChromaticityY(e) => (e.index, e.id),
            Self::PrimaryBChromaticityX(e) => (e.index, e.id),
            Self::PrimaryBChromaticityY(e) => (e.index, e.id),
            Self::WhitePointChromaticityX(e) => (e.index, e.id),
            Self::WhitePointChromaticityY(e) => (e.index, e.id),
            Self::LuminanceMax(e) => (e.index, e.id),
            Self::LuminanceMin(e) => (e.index, e.id),
        }
    }
}

/// The `Projection` structural element.
#[derive(Debug)]
pub struct Projection {
    pub size: u64,
    pub projection_type: Ebml<u64>,
    pub projection_private: Option<Ebml<Vec<u8>>>,
    /// A float on the wire, held as its IEEE-754 f64 bit pattern; convert
    /// with `f64::to_bits` and `f64::from_bits`.
    pub projection_pose_yaw: Ebml<u64>,
    /// A float on the wire, held as its IEEE-754 f64 bit pattern; convert
    /// with `f64::to_bits` and `f64::from_bits`.
    pub projection_pose_pitch: Ebml<u64>,
    /// A float on the wire, held as its IEEE-754 f64 bit pattern; convert
    /// with `f64::to_bits` and `f64::from_bits`.
    pub projection_pose_roll: Ebml<u64>,
}

impl Projection {
    /// The models of the children, in declaration order.
    #[verifier::opaque]
    pub open spec fn raw_model(self) -> Seq<FieldModel>
    {
        seq![FieldModel::UInt { id: 0x7671, idx: self.projection_type.index, key: self.projection_type.id, v: *self.projection_type.v }]
            + (match self.projection_private { Some(e) => seq![FieldModel::Bin { id: 0x7672, idx: e.index, key: e.id, b: (*e.v)@ }], None => Seq::empty() })
            + seq![FieldModel::Flt64 { id: 0x7673, idx: self.projection_pose_yaw.index, key: self.projection_pose_yaw.id, bits: *self.projection_pose_yaw.v }]
            + seq![FieldModel::Flt64 { id: 0x7674, idx: self.projection_pose_pitch.index, key: self.projection_pose_pitch.id, bits: *self.projection_pose_pitch.v }]
            + seq![FieldModel::Flt64 { id: 0x7675, idx: self.projection_pose_roll.index, key: self.projection_pose_roll.id, bits: *self.projection_pose_roll.v }]
    }

    /// The children in emission order.
    #[verifier::opaque]
    pub open spec fn model(self) -> Seq<FieldModel>
    {
        sort_fields_spec(self.raw_model())
    }

    /// Append the `projection_type` child values to a field run.
    #[verifier::loop_isolation(false)]
    fn push_projection_type(&self, v: &mut Vec<ProjectionFields>)
        ensures
            models_of::<ProjectionFields>(final(v)@) == models_of::<ProjectionFields>(old(v)@) + seq![FieldModel::UInt { id: 0x7671, idx: self.projection_type.index, key: self.projection_type.id, v: *self.projection_type.v }],
    {
        let ghost prevv = v@;
        v.push(ProjectionFields::ProjectionType(crate::dup_ebml_copy(&self.projection_type)));
        proof {
            assert(models_of::<ProjectionFields>(v@) =~= models_of::<ProjectionFields>(prevv).push(v@.last().model()));
            assert(models_of::<ProjectionFields>(prevv).push(v@.last().model()) =~= models_of::<ProjectionFields>(prevv) + seq![FieldModel::UInt { id: 0x7671, idx: self.projection_type.index, key: self.projection_type.id, v: *self.projection_type.v }]);
        }
    }

    /// Append the `projection_private` child values to a field run.
    #[verifier::loop_isolation(false)]
    fn push_projection_private(&self, v: &mut Vec<ProjectionFields>)
        ensures
            models_of::<ProjectionFields>(final(v)@) == models_of::<ProjectionFields>(old(v)@) + (match &self.projection_private { Some(e) => seq![FieldModel::Bin { id: 0x7672, idx: e.index, key: e.id, b: (*e.v)@ }], None => Seq::empty() }),
    {
        match &self.projection_private {
            Some(e) => {
                let ghost prevv = v@;
                v.push(ProjectionFields::ProjectionPrivate(crate::dup_ebml_bytes(e)));
                proof {
                    assert(models_of::<ProjectionFields>(v@) =~= models_of::<ProjectionFields>(prevv).push(v@.last().model()));
                    assert(models_of::<ProjectionFields>(prevv).push(v@.last().model()) =~= models_of::<ProjectionFields>(prevv) + (match &self.projection_private { Some(e) => seq![FieldModel::Bin { id: 0x7672, idx: e.index, key: e.id, b: (*e.v)@ }], None => Seq::empty() }));
                }
            },
            None => {
                proof {
                    assert(models_of::<ProjectionFields>(v@) =~= models_of::<ProjectionFields>(v@) + (match &self.projection_private { Some(e) => seq![FieldModel::Bin { id: 0x7672, idx: e.index, key: e.id, b: (*e.v)@ }], None => Seq::empty() }));
                }
            },
        }
    }

    /// Append the `projection_pose_yaw` child values to a field run.
    #[verifier::loop_isolation(false)]
    fn push_projection_pose_yaw(&self, v: &mut Vec<ProjectionFields>)
        ensures
            models_of::<ProjectionFields>(final(v)@) == models_of::<ProjectionFields>(old(v)@) + seq![FieldModel::Flt64 { id: 0x7673, idx: self.projection_pose_yaw.index, key: self.projection_pose_yaw.id, bits: *self.projection_pose_yaw.v }],
    {
        let ghost prevv = v@;
        v.push(ProjectionFields::ProjectionPoseYaw(crate::dup_ebml_copy(&self.projection_pose_yaw)));
        proof {
            assert(models_of::<ProjectionFields>(v@) =~= models_of::<ProjectionFields>(prevv).push(v@.last().model()));
            assert(models_of::<ProjectionFields>(prevv).push(v@.last().model()) =~= models_of::<ProjectionFields>(prevv) + seq![FieldModel::Flt64 { id: 0x7673, idx: self.projection_pose_yaw.index, key: self.projection_pose_yaw.id, bits: *self.projection_pose_yaw.v }]);
        }
    }

    /// Append the `projection_pose_pitch` child values to a field run.
    #[verifier::loop_isolation(false)]
    fn push_projection_pose_pitch(&self, v: &mut Vec<ProjectionFields>)
        ensures
            models_of::<ProjectionFields>(final(v)@) == models_of::<ProjectionFields>(old(v)@) + seq![FieldModel::Flt64 { id: 0x7674, idx: self.projection_pose_pitch.index, key: self.projection_pose_pitch.id, bits: *self.projection_pose_pitch.v }],
    {
        let ghost prevv = v@;
        v.push(ProjectionFields::ProjectionPosePitch(crate::dup_ebml_copy(&self.projection_pose_pitch)));
        proof {
            assert(models_of::<ProjectionFields>(v@) =~= models_of::<ProjectionFields>(prevv).push(v@.last().model()));
            assert(models_of::<ProjectionFields>(prevv).push(v@.last().model()) =~= models_of::<ProjectionFields>(prevv) + seq![FieldModel::Flt64 { id: 0x7674, idx: self.projection_pose_pitch.index, key: self.projection_pose_pitch.id, bits: *self.projection_pose_pitch.v }]);
        }
    }

    /// Append the `projection_pose_roll` child values to a field run.
    #[verifier::loop_isolation(false)]
    fn push_projection_pose_roll(&self, v: &mut Vec<ProjectionFields>)
        ensures
            models_of::<ProjectionFields>(final(v)@) == models_of::<ProjectionFields>(old(v)@) + seq![FieldModel::Flt64 { id: 0x7675, idx: self.projection_pose_roll.index, key: self.projection_pose_roll.id, bits: *self.projection_pose_roll.v }],
    {
        let ghost prevv = v@;
        v.push(ProjectionFields::ProjectionPoseRoll(crate::dup_ebml_copy(&self.projection_pose_roll)));
        proof {
            assert(models_of::<ProjectionFields>(v@) =~= models_of::<ProjectionFields>(prevv).push(v@.last().model()));
            assert(models_of::<ProjectionFields>(prevv).push(v@.last().model()) =~= models_of::<ProjectionFields>(prevv) + seq![FieldModel::Flt64 { id: 0x7675, idx: self.projection_pose_roll.index, key: self.projection_pose_roll.id, bits: *self.projection_pose_roll.v }]);
        }
    }

    /// The present children, each paired with its ID, in emission order.
    #[verifier::rlimit(100)]
    #[verifier::spinoff_prover]
    pub fn elements(&self) -> (r: Vec<ProjectionFields>)
        ensures
            models_of::<ProjectionFields>(r@) == self.model(),
    {
        let mut v: Vec<ProjectionFields> = Vec::new();
        proof {
            assert(models_of::<ProjectionFields>(v@) =~= Seq::<FieldModel>::empty());
        }
        self.push_projection_type(&mut v);
        self.push_projection_private(&mut v);
        self.push_projection_pose_yaw(&mut v);
        self.push_projection_pose_pitch(&mut v);
        self.push_projection_pose_roll(&mut v);
        proof {
            reveal(Projection::raw_model);
            reveal(Projection::model);
            assert(Seq::<FieldModel>::empty() + seq![FieldModel::UInt { id: 0x7671, idx: self.projection_type.index, key: self.projection_type.id, v: *self.projection_type.v }] =~= seq![FieldModel::UInt { id: 0x7671, idx: self.projection_type.index, key: self.projection_type.id, v: *self.projection_type.v }]);
            assert(models_of::<ProjectionFields>(v@) == self.raw_model());
        }
        sort_fields(v)
    }

    /// A deep copy of the `projection_type` slot.
    #[verifier::loop_isolation(false)]
    fn dup_projection_type(&self) -> (r: Ebml<u64>)
        ensures
            seq![FieldModel::UInt { id: 0x7671, idx: r.index, key: r.id, v: *r.v }] == seq![FieldModel::UInt { id: 0x7671, idx: self.projection_type.index, key: self.projection_type.id, v: *self.projection_type.v }],
    {
        crate::dup_ebml_copy(&self.projection_type)
    }

    /// A deep copy of the `projection_private` slot.
    #[verifier::loop_isolation(false)]
    fn dup_projection_private(&self) -> (r: Option<Ebml<Vec<u8>>>)
        ensures
            (match &r { Some(e) => seq![FieldModel::Bin { id: 0x7672, idx: e.index, key: e.id, b: (*e.v)@ }], None => Seq::empty() }) == (match &self.projection_private { Some(e) => seq![FieldModel::Bin { id: 0x7672, idx: e.index, key: e.id, b: (*e.v)@ }], None => Seq::empty() }),
    {
        match &self.projection_private {
            Some(e) => Some(crate::dup_ebml_bytes(e)),
            None => None,
        }
    }

    /// A deep copy of the `projection_pose_yaw` slot.
    #[verifier::loop_isolation(false)]
    fn dup_projection_pose_yaw(&self) -> (r: Ebml<u64>)
        ensures
            seq![FieldModel::Flt64 { id: 0x7673, idx: r.index, key: r.id, bits: *r.v }] == seq![FieldModel::Flt64 { id: 0x7673, idx: self.projection_pose_yaw.index, key: self.projection_pose_yaw.id, bits: *self.projection_pose_yaw.v }],
    {
        crate::dup_ebml_copy(&self.projection_pose_yaw)
    }

    /// A deep copy of the `projection_pose_pitch` slot.
    #[verifier::loop_isolation(false)]
    fn dup_projection_pose_pitch(&self) -> (r: Ebml<u64>)
        ensures
            seq![FieldModel::Flt64 { id: 0x7674, idx: r.index, key: r.id, bits: *r.v }] == seq![FieldModel::Flt64 { id: 0x7674, idx: self.projection_pose_pitch.index, key: self.projection_pose_pitch.id, bits: *self.projection_pose_pitch.v }],
    {
        crate::dup_ebml_copy(&self.projection_pose_pitch)
    }

    /// A deep copy of the `projection_pose_roll` slot.
    #[verifier::loop_isolation(false)]
    fn dup_projection_pose_roll(&self) -> (r: Ebml<u64>)
        ensures
            seq![FieldModel::Flt64 { id: 0x7675, idx: r.index, key: r.id, bits: *r.v }] == seq![FieldModel::Flt64 { id: 0x7675, idx: self.projection_pose_roll.index, key: self.projection_pose_roll.id, bits: *self.projection_pose_roll.v }],
    {
        crate::dup_ebml_copy(&self.projection_pose_roll)
    }

    /// A deep copy with the same children, positions, and keys.
    #[verifier::rlimit(100)]
    #[verifier::spinoff_prover]
    pub fn duplicate(&self) -> (r: Self)
        ensures
            r.raw_model() == self.raw_model(),
            r.size == self.size,
    {
        let r = Projection {
            size: self.size,
            projection_type: self.dup_projection_type(),
            projection_private: self.dup_projection_private(),
            projection_pose_yaw: self.dup_projection_pose_yaw(),
            projection_pose_pitch: self.dup_projection_pose_pitch(),
            projection_pose_roll: self.dup_projection_pose_roll(),
        };
        proof {
            reveal(Projection::raw_model);
            assert(r.raw_model() == self.raw_model());
        }
        r
    }
}

impl Projection {
    /// Serialise the whole element: body to a scratch buffer first, then
    /// the header with the now-known length, then the body.
    pub fn write_blocking(&self, w: &mut Vec<u8>) -> (r: Result<usize, MatroskaError>)
        ensures
            r is Ok <==> body_ok_rec(self.model()) && cat_bytes(self.model()).len() < 0xFFFFFFFFFFFFFF,
            r is Ok ==> final(w)@ == old(w)@ + node_frame_bytes(0x7670, cat_bytes(self.model()))
                && r->Ok_0 == node_frame_bytes(0x7670, cat_bytes(self.model())).len(),
            r is Err ==> final(w)@ == old(w)@ && r->Err_0 is InvalidVarIntMoreThanVintMax,
    {
        let mut buf: Vec<u8> = Vec::new();
        match self.write_body_blocking(&mut buf) {
            Ok(_) => {},
            Err(e) => {
                return Err(e);
            },
        }
        let start = w.len();
        match crate::io::write_element_id_size(w, 0x7670, buf.len() as u64) {
            Ok(_) => {},
            Err(e) => {
                return Err(e);
            },
        }
        w.append(&mut buf);
        Ok(w.len() - start)
    }

    /// Write this element's header with the given body size.
    pub fn write_header_blocking(&self, w: &mut Vec<u8>, size: u64) -> (r: Result<usize, MatroskaError>)
        ensures
            r is Ok <==> crate::io::size_encodable(size),
            r is Ok ==> final(w)@ == old(w)@ + crate::io::header_bytes(0x7670, size)
                && r->Ok_0 == crate::io::header_bytes(0x7670, size).len(),
            r is Err ==> final(w)@ == old(w)@ && r->Err_0 is InvalidVarIntMoreThanVintMax,
    {
        crate::io::write_element_id_size(w, 0x7670, size)
    }

    /// Write the body: every present child, in emission order.
    #[verifier::loop_isolation(false)]
    #[verifier::rlimit(60)]
    #[verifier::spinoff_prover]
    pub fn write_body_blocking(&self, w: &mut Vec<u8>) -> (r: Result<usize, MatroskaError>)
        ensures
            r is Ok <==> body_ok_rec(self.model()),
            r is Ok ==> final(w)@ == old(w)@ + cat_bytes(self.model())
                && r->Ok_0 == cat_bytes(self.model()).len(),
            r is Err ==> r->Err_0 is InvalidVarIntMoreThanVintMax,
    {
        let fields = self.elements();
        let start = w.len();
        let ghost ms = self.model();
        let mut i: usize = 0;
        while i < fields.len()
            invariant
                i <= fields@.len(),
                models_of::<ProjectionFields>(fields@) == ms,
                w@ == old(w)@ + cat_bytes(ms.take(i as int)),
                body_ok_rec(ms.take(i as int)),
            decreases fields@.len() - i,
        {
            proof {
                assert(models_of::<ProjectionFields>(fields@)[i as int] == ms[i as int]);
            }
            match fields[i].write_el(w) {
                Ok(_) => {},
                Err(e) => {
                    proof {
                        lemma_body_ok_forall(ms);
                    }
                    return Err(e);
                },
            }
            proof {
                assert(ms.take(i + 1) =~= ms.take(i as int).push(ms[i as int]));
                lemma_cat_snoc(ms.take(i as int), ms[i as int]);
            }
            i += 1;
        }
        proof {
            assert(ms.take(ms.len() as int) =~= ms);
            lemma_body_ok_forall(ms);
        }
        Ok(w.len() - start)
    }
}

/// One present child of a `Projection`, paired with its value.
#[derive(Debug)]
pub enum ProjectionFields {
    ProjectionType(Ebml<u64>),
    ProjectionPrivate(Ebml<Vec<u8>>),
    ProjectionPoseYaw(Ebml<u64>),
    ProjectionPosePitch(Ebml<u64>),
    ProjectionPoseRoll(Ebml<u64>),
}

impl ProjectionFields {
    /// The child's element ID and its two ordering slots.
    #[verifier::rlimit(60)]
    #[verifier::spinoff_prover]
    pub fn index(&self) -> (r: (EbmlId, Option<u64>, u64))
        ensures
            r.0.spec_u64() == self.model().eid(),
            r.1 == self.model().idx(),
            r.2 == self.model().key(),
    {
        match self {
            Self::ProjectionType(val) => (EbmlId::ProjectionType, val.index, val.id),
            Self::ProjectionPrivate(val) => (EbmlId::ProjectionPrivate, val.index, val.id),
            Self::ProjectionPoseYaw(val) => (EbmlId::ProjectionPoseYaw, val.index, val.id),
            Self::ProjectionPosePitch(val) => (EbmlId::ProjectionPosePitch, val.index, val.id),
            Self::ProjectionPoseRoll(val) => (EbmlId::ProjectionPoseRoll, val.index, val.id),
        }
    }

    /// Write this child's frame.
    #[verifier::rlimit(60)]
    #[verifier::spinoff_prover]
    pub fn write_el(&self, w: &mut Vec<u8>) -> (r: Result<usize, MatroskaError>)
        ensures
            r is Ok <==> el_ok(self.model()),
            r is Ok ==> final(w)@ == old(w)@ + el_bytes(self.model())
                && r->Ok_0 == el_bytes(self.model()).len(),
            r is Err ==> final(w)@ == old(w)@ && r->Err_0 is InvalidVarIntMoreThanVintMax,
    {
        match self {
            Self::ProjectionType(val) => crate::io::write_el_uint(w, 0x7671, &*val.v),
            Self::ProjectionPrivate(val) => crate::io::write_el_bin(w, 0x7672, (*val.v).as_slice()),
            Self::ProjectionPoseYaw(val) => crate::io::write_el_float64(w, 0x7673, *val.v),
            Self::ProjectionPosePitch(val) => crate::io::write_el_float64(w, 0x7674, *val.v),
            Self::ProjectionPoseRoll(val) => crate::io::write_el_float64(w, 0x7675, *val.v),
        }
    }
}

impl EbmlField for ProjectionFields {
    open spec fn model(&self) -> FieldModel {
        match self {
            Self::ProjectionType(e) => FieldModel::UInt { id: 0x7671, idx: e.index, key: e.id, v: *e.v },
            Self::ProjectionPrivate(e) => FieldModel::Bin { id: 0x7672, idx: e.index, key: e.id, b: (*e.v)@ },
            Self::ProjectionPoseYaw(e) => FieldModel::Flt64 { id: 0x7673, idx: e.index, key: e.id, bits: *e.v },
            Self::ProjectionPosePitch(e) => FieldModel::Flt64 { id: 0x7674, idx: e.index, key: e.id, bits: *e.v },
            Self::ProjectionPoseRoll(e) => FieldModel::Flt64 { id: 0x7675, idx: e.index, key: e.id, bits: *e.v },
        }
    }

    fn sort_key(&self) -> (r: (Option<u64>, u64)) {
        match self {
            Self::ProjectionType(e) => (e.index, e.id),
            Self::ProjectionPrivate(e) => (e.index, e.id),
            Self::ProjectionPoseYaw(e) => (e.index, e.id),
            Self::ProjectionPosePitch(e) => (e.index, e.id),
            Self::ProjectionPoseRoll(e) => (e.index, e.id),
        }
    }
}

/// The `Audio` structural element.
#[derive(Debug)]
pub struct Audio {
    pub size: u64,
    /// A float on the wire, held as its IEEE-754 f64 bit pattern; convert
    /// with `f64::to_bits` and `f64::from_bits`.
    pub sampling_frequency: Ebml<u64>,
    /// A float on the wire, held as its IEEE-754 f64 bit pattern; convert
    /// with `f64::to_bits` and `f64::from_bits`.
    pub output_sampling_frequency: Option<Ebml<u64>>,
    pub channels: Ebml<u64>,
    pub channel_positions: Option<Ebml<Vec<u8>>>,
    pub bit_depth: Option<Ebml<u64>>,
    pub emphasis: Ebml<u64>,
}

impl Audio {
    /// The models of the children, in declaration order.
    #[verifier::opaque]
    pub open spec fn raw_model(self) -> Seq<FieldModel>
    {
        seq![FieldModel::Flt64 { id: 0xB5, idx: self.sampling_frequency.index, key: self.sampling_frequency.id, bits: *self.sampling_frequency.v }]
            + (match self.output_sampling_frequency { Some(e) => seq![FieldModel::Flt64 { id: 0x78B5, idx: e.index, key: e.id, bits: *e.v }], None => Seq::empty() })
            + seq![FieldModel::UInt { id: 0x9F, idx: self.channels.index, key: self.channels.id, v: *self.channels.v }]
            + (match self.channel_positions { Some(e) => seq![FieldModel::Bin { id: 0x7D7B, idx: e.index, key: e.id, b: (*e.v)@ }], None => Seq::empty() })
            + (match self.bit_depth { Some(e) => seq![FieldModel::UInt { id: 0x6264, idx: e.index, key: e.id, v: *e.v }], None => Seq::empty() })
            + seq![FieldModel::UInt { id: 0x52F1, idx: self.emphasis.index, key: self.emphasis.id, v: *self.emphasis.v }]
    }

    /// The children in emission order.
    #[verifier::opaque]
    pub open spec fn model(self) -> Seq<FieldModel>
    {
        sort_fields_spec(self.raw_model())
    }

    /// Append the `sampling_frequency` child values to a field run.
    #[verifier::loop_isolation(false)]
    fn push_sampling_frequency(&self, v: &mut Vec<AudioFields>)
        ensures
            models_of::<AudioFields>(final(v)@) == models_of::<AudioFields>(old(v)@) + seq![FieldModel::Flt64 { id: 0xB5, idx: self.sampling_frequency.index, key: self.sampling_frequency.id, bits: *self.sampling_frequency.v }],
    {
        let ghost prevv = v@;
        v.push(AudioFields::SamplingFrequency(crate::dup_ebml_copy(&self.sampling_frequency)));
        proof {
            assert(models_of::<AudioFields>(v@) =~= models_of::<AudioFields>(prevv).push(v@.last().model()));
            assert(models_of::<AudioFields>(prevv).push(v@.last().model()) =~= models_of::<AudioFields>(prevv) + seq![FieldModel::Flt64 { id: 0xB5, idx: self.sampling_frequency.index, key: self.sampling_frequency.id, bits: *self.sampling_frequency.v }]);
        }
    }

    /// Append the `output_sampling_frequency` child values to a field run.
    #[verifier::loop_isolation(false)]
    fn push_output_sampling_frequency(&self, v: &mut Vec<AudioFields>)
        ensures
            models_of::<AudioFields>(final(v)@) == models_of::<AudioFields>(old(v)@) + (match &self.output_sampling_frequency { Some(e) => seq![FieldModel::Flt64 { id: 0x78B5, idx: e.index, key: e.id, bits: *e.v }], None => Seq::empty() }),
    {
        match &self.output_sampling_frequency {
            Some(e) => {
                let ghost prevv = v@;
                v.push(AudioFields::OutputSamplingFrequency(crate::dup_ebml_copy(e)));
                proof {
                    assert(models_of::<AudioFields>(v@) =~= models_of::<AudioFields>(prevv).push(v@.last().model()));
                    assert(models_of::<AudioFields>(prevv).push(v@.last().model()) =~= models_of::<AudioFields>(prevv) + (match &self.output_sampling_frequency { Some(e) => seq![FieldModel::Flt64 { id: 0x78B5, idx: e.index, key: e.id, bits: *e.v }], None => Seq::empty() }));
                }
            },
            None => {
                proof {
                    assert(models_of::<AudioFields>(v@) =~= models_of::<AudioFields>(v@) + (match &self.output_sampling_frequency { Some(e) => seq![FieldModel::Flt64 { id: 0x78B5, idx: e.index, key: e.id, bits: *e.v }], None => Seq::empty() }));
                }
            },
        }
    }

    /// Append the `channels` child values to a field run.
    #[verifier::loop_isolation(false)]
    fn push_channels(&self, v: &mut Vec<AudioFields>)
        ensures
            models_of::<AudioFields>(final(v)@) == models_of::<AudioFields>(old(v)@) + seq![FieldModel::UInt { id: 0x9F, idx: self.channels.index, key: self.channels.id, v: *self.channels.v }],
    {
        let ghost prevv = v@;
        v.push(AudioFields::Channels(crate::dup_ebml_copy(&self.channels)));
        proof {
            assert(models_of::<AudioFields>(v@) =~= models_of::<AudioFields>(prevv).push(v@.last().model()));
            assert(models_of::<AudioFields>(prevv).push(v@.last().model()) =~= models_of::<AudioFields>(prevv) + seq![FieldModel::UInt { id: 0x9F, idx: self.channels.index, key: self.channels.id, v: *self.channels.v }]);
        }
    }

    /// Append the `channel_positions` child values to a field run.
    #[verifier::loop_isolation(false)]
    fn push_channel_positions(&self, v: &mut Vec<AudioFields>)
        ensures
            models_of::<AudioFields>(final(v)@) == models_of::<AudioFields>(old(v)@) + (match &self.channel_positions { Some(e) => seq![FieldModel::Bin { id: 0x7D7B, idx: e.index, key: e.id, b: (*e.v)@ }], None => Seq::empty() }),
    {
        match &self.channel_positions {
            Some(e) => {
                let ghost prevv = v@;
                v.push(AudioFields::ChannelPositions(crate::dup_ebml_bytes(e)));
                proof {
                    assert(models_of::<AudioFields>(v@) =~= models_of::<AudioFields>(prevv).push(v@.last().model()));
                    assert(models_of::<AudioFields>(prevv).push(v@.last().model()) =~= models_of::<AudioFields>(prevv) + (match &self.channel_positions { Some(e) => seq![FieldModel::Bin { id: 0x7D7B, idx: e.index, key: e.id, b: (*e.v)@ }], None => Seq::empty() }));
                }
            },
            None => {
                proof {
                    assert(models_of::<AudioFields>(v@) =~= models_of::<AudioFields>(v@) + (match &self.channel_positions { Some(e) => seq![FieldModel::Bin { id: 0x7D7B, idx: e.index, key: e.id, b: (*e.v)@ }], None => Seq::empty() }));
                }
            },
        }
    }

    /// Append the `bit_depth` child values to a field run.
    #[verifier::loop_isolation(false)]
    fn push_bit_depth(&self, v: &mut Vec<AudioFields>)
        ensures
            models_of::<AudioFields>(final(v)@) == models_of::<AudioFields>(old(v)@) + (match &self.bit_depth { Some(e) => seq![FieldModel::UInt { id: 0x6264, idx: e.index, key: e.id, v: *e.v }], None => Seq::empty() }),
    {
        match &self.bit_depth {
            Some(e) => {
                let ghost prevv = v@;
                v.push(AudioFields::BitDepth(crate::dup_ebml_copy(e)));
                proof {
                    assert(models_of::<AudioFields>(v@) =~= models_of::<AudioFields>(prevv).push(v@.last().model()));
                    assert(models_of::<AudioFields>(prevv).push(v@.last().model()) =~= models_of::<AudioFields>(prevv) + (match &self.bit_depth { Some(e) => seq![FieldModel::UInt { id: 0x6264, idx: e.index, key: e.id, v: *e.v }], None => Seq::empty() }));
                }
            },
            None => {
                proof {
                    assert(models_of::<AudioFields>(v@) =~= models_of::<AudioFields>(v@) + (match &self.bit_depth { Some(e) => seq![FieldModel::UInt { id: 0x6264, idx: e.index, key: e.id, v: *e.v }], None => Seq::empty() }));
                }
            },
        }
    }

    /// Append the `emphasis` child values to a field run.
    #[verifier::loop_isolation(false)]
    fn push_emphasis(&self, v: &mut Vec<AudioFields>)
        ensures
            models_of::<AudioFields>(final(v)@) == models_of::<AudioFields>(old(v)@) + seq![FieldModel::UInt { id: 0x52F1, idx: self.emphasis.index, key: self.emphasis.id, v: *self.emphasis.v }],
    {
        let ghost prevv = v@;
        v.push(AudioFields::Emphasis(crate::dup_ebml_copy(&self.emphasis)));
        proof {
            assert(models_of::<AudioFields>(v@) =~= models_of::<AudioFields>(prevv).push(v@.last().model()));
            assert(models_of::<AudioFields>(prevv).push(v@.last().model()) =~= models_of::<AudioFields>(prevv) + seq![FieldModel::UInt { id: 0x52F1, idx: self.emphasis.index, key: self.emphasis.id, v: *self.emphasis.v }]);
        }
    }

    /// The present children, each paired with its ID, in emission order.
    #[verifier::rlimit(100)]
    #[verifier::spinoff_prover]
    pub fn elements(&self) -> (r: Vec<AudioFields>)
        ensures
            models_of::<AudioFields>(r@) == self.model(),
    {
        let mut v: Vec<AudioFields> = Vec::new();
        proof {
            assert(models_of::<AudioFields>(v@) =~= Seq::<FieldModel>::empty());
        }
        self.push_sampling_frequency(&mut v);
        self.push_output_sampling_frequency(&mut v);
        self.push_channels(&mut v);
        self.push_channel_positions(&mut v);
        self.push_bit_depth(&mut v);
        self.push_emphasis(&mut v);
        proof {
            reveal(Audio::raw_model);
            reveal(Audio::model);
            assert(Seq::<FieldModel>::empty() + seq![FieldModel::Flt64 { id: 0xB5, idx: self.sampling_frequency.index, key: self.sampling_frequency.id, bits: *self.sampling_frequency.v }] =~= seq![FieldModel::Flt64 { id: 0xB5, idx: self.sampling_frequency.index, key: self.sampling_frequency.id, bits: *self.sampling_frequency.v }]);
            assert(models_of::<AudioFields>(v@) == self.raw_model());
        }
        sort_fields(v)
    }

    /// A deep copy of the `sampling_frequency` slot.
    #[verifier::loop_isolation(false)]
    fn dup_sampling_frequency(&self) -> (r: Ebml<u64>)
        ensures
            seq![FieldModel::Flt64 { id: 0xB5, idx: r.index, key: r.id, bits: *r.v }] == seq![FieldModel::Flt64 { id: 0xB5, idx: self.sampling_frequency.index, key: self.sampling_frequency.id, bits: *self.sampling_frequency.v }],
    {
        crate::dup_ebml_copy(&self.sampling_frequency)
    }

    /// A deep copy of the `output_sampling_frequency` slot.
    #[verifier::loop_isolation(false)]
    fn dup_output_sampling_frequency(&self) -> (r: Option<Ebml<u64>>)
        ensures
            (match &r { Some(e) => seq![FieldModel::Flt64 { id: 0x78B5, idx: e.index, key: e.id, bits: *e.v }], None => Seq::empty() }) == (match &self.output_sampling_frequency { Some(e) => seq![FieldModel::Flt64 { id: 0x78B5, idx: e.index, key: e.id, bits: *e.v }], None => Seq::empty() }),
    {
        match &self.output_sampling_frequency {
            Some(e) => Some(crate::dup_ebml_copy(e)),
            None => None,
        }
    }

    /// A deep copy of the `channels` slot.
    #[verifier::loop_isolation(false)]
    fn dup_channels(&self) -> (r: Ebml<u64>)
        ensures
            seq![FieldModel::UInt { id: 0x9F, idx: r.index, key: r.id, v: *r.v }] == seq![FieldModel::UInt { id: 0x9F, idx: self.channels.index, key: self.channels.id, v: *self.channels.v }],
    {
        crate::dup_ebml_copy(&self.channels)
    }

    /// A deep copy of the `channel_positions` slot.
    #[verifier::loop_isolation(false)]
    fn dup_channel_positions(&self) -> (r: Option<Ebml<Vec<u8>>>)
        ensures
            (match &r { Some(e) => seq![FieldModel::Bin { id: 0x7D7B, idx: e.index, key: e.id, b: (*e.v)@ }], None => Seq::empty() }) == (match &self.channel_positions { Some(e) => seq![FieldModel::Bin { id: 0x7D7B, idx: e.index, key: e.id, b: (*e.v)@ }], None => Seq::empty() }),
    {
        match &self.channel_positions {
            Some(e) => Some(crate::dup_ebml_bytes(e)),
            None => None,
        }
    }

    /// A deep copy of the `bit_depth` slot.
    #[verifier::loop_isolation(false)]
    fn dup_bit_depth(&self) -> (r: Option<Ebml<u64>>)
        ensures
            (match &r { Some(e) => seq![FieldModel::UInt { id: 0x6264, idx: e.index, key: e.id, v: *e.v }], None => Seq::empty() }) == (match &self.bit_depth { Some(e) => seq![FieldModel::UInt { id: 0x6264, idx: e.index, key: e.id, v: *e.v }], None => Seq::empty() }),
    {
        match &self.bit_depth {
            Some(e) => Some(crate::dup_ebml_copy(e)),
            None => None,
        }
    }

    /// A deep copy of the `emphasis` slot.
    #[verifier::loop_isolation(false)]
    fn dup_emphasis(&self) -> (r: Ebml<u64>)
        ensures
            seq![FieldModel::UInt { id: 0x52F1, idx: r.index, key: r.id, v: *r.v }] == seq![FieldModel::UInt { id: 0x52F1, idx: self.emphasis.index, key: self.emphasis.id, v: *self.emphasis.v }],
    {
        crate::dup_ebml_copy(&self.emphasis)
    }

    /// A deep copy with the same children, positions, and keys.
    #[verifier::rlimit(100)]
    #[verifier::spinoff_prover]
    pub fn duplicate(&self) -> (r: Self)
        ensures
            r.raw_model() == self.raw_model(),
            r.size == self.size,
    {
        let r = Audio {
            size: self.size,
            sampling_frequency: self.dup_sampling_frequency(),
            output_sampling_frequency: self.dup_output_sampling_frequency(),
            channels: self.dup_channels(),
            channel_positions: self.dup_channel_positions(),
            bit_depth: self.dup_bit_depth(),
            emphasis: self.dup_emphasis(),
        };
        proof {
            reveal(Audio::raw_model);
            assert(r.raw_model() == self.raw_model());
        }
        r
    }
}

impl Audio {
    /// Serialise the whole element: body to a scratch buffer first, then
    /// the header with the now-known length, then the body.
    pub fn write_blocking(&self, w: &mut Vec<u8>) -> (r: Result<usize, MatroskaError>)
        ensures
            r is Ok <==> body_ok_rec(self.model()) && cat_bytes(self.model()).len() < 0xFFFFFFFFFFFFFF,
            r is Ok ==> final(w)@ == old(w)@ + node_frame_bytes(0xE1, cat_bytes(self.model()))
                && r->Ok_0 == node_frame_bytes(0xE1, cat_bytes(self.model())).len(),
            r is Err ==> final(w)@ == old(w)@ && r->Err_0 is InvalidVarIntMoreThanVintMax,
    {
        let mut buf: Vec<u8> = Vec::new();
        match self.write_body_blocking(&mut buf) {
            Ok(_) => {},
            Err(e) => {
                return Err(e);
            },
        }
        let start = w.len();
        match crate::io::write_element_id_size(w, 0xE1, buf.len() as u64) {
            Ok(_) => {},
            Err(e) => {
                return Err(e);
            },
        }
        w.append(&mut buf);
        Ok(w.len() - start)
    }

    /// Write this element's header with the given body size.
    pub fn write_header_blocking(&self, w: &mut Vec<u8>, size: u64) -> (r: Result<usize, MatroskaError>)
        ensures
            r is Ok <==> crate::io::size_encodable(size),
            r is Ok ==> final(w)@ == old(w)@ + crate::io::header_bytes(0xE1, size)
                && r->Ok_0 == crate::io::header_bytes(0xE1, size).len(),
            r is Err ==> final(w)@ == old(w)@ && r->Err_0 is InvalidVarIntMoreThanVintMax,
    {
        crate::io::write_element_id_size(w, 0xE1, size)
    }

    /// Write the body: every present child, in emission order.
    #[verifier::loop_isolation(false)]
    #[verifier::rlimit(60)]
    #[verifier::spinoff_prover]
    pub fn write_body_blocking(&self, w: &mut Vec<u8>) -> (r: Result<usize, MatroskaError>)
        ensures
            r is Ok <==> body_ok_rec(self.model()),
            r is Ok ==> final(w)@ == old(w)@ + cat_bytes(self.model())
                && r->Ok_0 == cat_bytes(self.model()).len(),
            r is Err ==> r->Err_0 is InvalidVarIntMoreThanVintMax,
    {
        let fields = self.elements();
        let start = w.len();
        let ghost ms = self.model();
        let mut i: usize = 0;
        while i < fields.len()
            invariant
                i <= fields@.len(),
                models_of::<AudioFields>(fields@) == ms,
                w@ == old(w)@ + cat_bytes(ms.take(i as int)),
                body_ok_rec(ms.take(i as int)),
            decreases fields@.len() - i,
        {
            proof {
                assert(models_of::<AudioFields>(fields@)[i as int] == ms[i as int]);
            }
            match fields[i].write_el(w) {
                Ok(_) => {},
                Err(e) => {
                    proof {
                        lemma_body_ok_forall(ms);
                    }
                    return Err(e);
                },
            }
            proof {
                assert(ms.take(i + 1) =~= ms.take(i as int).push(ms[i as int]));
                lemma_cat_snoc(ms.take(i as int), ms[i as int]);
            }
            i += 1;
        }
        proof {
            assert(ms.take(ms.len() as int) =~= ms);
            lemma_body_ok_forall(ms);
        }
        Ok(w.len() - start)
    }
}

/// One present child of a `Audio`, paired with its value.
#[derive(Debug)]
pub enum AudioFields {
    SamplingFrequency(Ebml<u64>),
    OutputSamplingFrequency(Ebml<u64>),
    Channels(Ebml<u64>),
    ChannelPositions(Ebml<Vec<u8>>),
    BitDepth(Ebml<u64>),
    Emphasis(Ebml<u64>),
}

impl AudioFields {
    /// The child's element ID and its two ordering slots.
    #[verifier::rlimit(60)]
    #[verifier::spinoff_prover]
    pub fn index(&self) -> (r: (EbmlId, Option<u64>, u64))
        ensures
            r.0.spec_u64() == self.model().eid(),
            r.1 == self.model().idx(),
            r.2 == self.model().key(),
    {
        match self {
            Self::SamplingFrequency(val) => (EbmlId::SamplingFrequency, val.index, val.id),
            Self::OutputSamplingFrequency(val) => (EbmlId::OutputSamplingFrequency, val.index, val.id),
            Self::Channels(val) => (EbmlId::Channels, val.index, val.id),
            Self::ChannelPositions(val) => (EbmlId::ChannelPositions, val.index, val.id),
            Self::BitDepth(val) => (EbmlId::BitDepth, val.index, val.id),
            Self::Emphasis(val) => (EbmlId::Emphasis, val.index, val.id),
        }
    }

    /// Write this child's frame.
    #[verifier::rlimit(60)]
    #[verifier::spinoff_prover]
    pub fn write_el(&self, w: &mut Vec<u8>) -> (r: Result<usize, MatroskaError>)
        ensures
            r is Ok <==> el_ok(self.model()),
            r is Ok ==> final(w)@ == old(w)@ + el_bytes(self.model())
                && r->Ok_0 == el_bytes(self.model()).len(),
            r is Err ==> final(w)@ == old(w)@ && r->Err_0 is InvalidVarIntMoreThanVintMax,
    {
        match self {
            Self::SamplingFrequency(val) => crate::io::write_el_float64(w, 0xB5, *val.v),
            Self::OutputSamplingFrequency(val) => crate::io::write_el_float64(w, 0x78B5, *val.v),
            Self::Channels(val) => crate::io::write_el_uint(w, 0x9F, &*val.v),
            Self::ChannelPositions(val) => crate::io::write_el_bin(w, 0x7D7B, (*val.v).as_slice()),
            Self::BitDepth(val) => crate::io::write_el_uint(w, 0x6264, &*val.v),
            Self::Emphasis(val) => crate::io::write_el_uint(w, 0x52F1, &*val.v),
        }
    }
}

impl EbmlField for AudioFields {
    open spec fn model(&self) -> FieldModel {
        match self {
            Self::SamplingFrequency(e) => FieldModel::Flt64 { id: 0xB5, idx: e.index, key: e.id, bits: *e.v },
            Self::OutputSamplingFrequency(e) => FieldModel::Flt64 { id: 0x78B5, idx: e.index, key: e.id, bits: *e.v },
            Self::Channels(e) => FieldModel::UInt { id: 0x9F, idx: e.index, key: e.id, v: *e.v },
            Self::ChannelPositions(e) => FieldModel::Bin { id: 0x7D7B, idx: e.index, key: e.id, b: (*e.v)@ },
            Self::BitDepth(e) => FieldModel::UInt { id: 0x6264, idx: e.index, key: e.id, v: *e.v },
            Self::Emphasis(e) => FieldModel::UInt { id: 0x52F1, idx: e.index, key: e.id, v: *e.v },
        }
    }

    fn sort_key(&self) -> (r: (Option<u64>, u64)) {
        match self {
            Self::SamplingFrequency(e) => (e.index, e.id),
            Self::OutputSamplingFrequency(e) => (e.index, e.id),
            Self::Channels(e) => (e.index, e.id),
            Self::ChannelPositions(e) => (e.index, e.id),
            Self::BitDepth(e) => (e.index, e.id),
            Self::Emphasis(e) => (e.index, e.id),
        }
    }
}

/// The `TrackOperation` structural element.
#[derive(Debug)]
pub struct TrackOperation {
    pub size: u64,
    pub track_combine_planes: Option<Ebml<TrackCombinePlanes>>,
    pub track_join_blocks: Option<Ebml<TrackJoinBlocks>>,
}

impl TrackOperation {
    /// The models of the children, in declaration order.
    #[verifier::opaque]
    pub open spec fn raw_model(self) -> Seq<FieldModel>
    {
        (match self.track_combine_planes { Some(e) => seq![FieldModel::Node { id: 0xE3, idx: e.index, key: e.id, children: (*e.v).model() }], None => Seq::empty() })
            + (match self.track_join_blocks { Some(e) => seq![FieldModel::Node { id: 0xE9, idx: e.index, key: e.id, children: (*e.v).model() }], None => Seq::empty() })
    }

    /// The children in emission order.
    #[verifier::opaque]
    pub open spec fn model(self) -> Seq<FieldModel>
    {
        sort_fields_spec(self.raw_model())
    }

    /// Append the `track_combine_planes` child values to a field run.
    #[verifier::loop_isolation(false)]
    fn push_track_combine_planes(&self, v: &mut Vec<TrackOperationFields>)
        ensures
            models_of::<TrackOperationFields>(final(v)@) == models_of::<TrackOperationFields>(old(v)@) + (match &self.track_combine_planes { Some(e) => seq![FieldModel::Node { id: 0xE3, idx: e.index, key: e.id, children: (*e.v).model() }], None => Seq::empty() }),
    {
        match &self.track_combine_planes {
            Some(e) => {
                let d = (&*e.v).duplicate();
                proof {
                    reveal(TrackCombinePlanes::model);
                    assert(d.model() == (*e.v).model());
                }
                let ghost prevv = v@;
                v.push(TrackOperationFields::TrackCombinePlanes(Ebml { index: e.index, v: Box::new(d), id: e.id }));
                proof {
                    assert(models_of::<TrackOperationFields>(v@) =~= models_of::<TrackOperationFields>(prevv).push(v@.last().model()));
                    assert(models_of::<TrackOperationFields>(prevv).push(v@.last().model()) =~= models_of::<TrackOperationFields>(prevv) + (match &self.track_combine_planes { Some(e) => seq![FieldModel::Node { id: 0xE3, idx: e.index, key: e.id, children: (*e.v).model() }], None => Seq::empty() }));
                }
            },
            None => {
                proof {
                    assert(models_of::<TrackOperationFields>(v@) =~= models_of::<TrackOperationFields>(v@) + (match &self.track_combine_planes { Some(e) => seq![FieldModel::Node { id: 0xE3, idx: e.index, key: e.id, children: (*e.v).model() }], None => Seq::empty() }));
                }
            },
        }
    }

    /// Append the `track_join_blocks` child values to a field run.
    #[verifier::loop_isolation(false)]
    fn push_track_join_blocks(&self, v: &mut Vec<TrackOperationFields>)
        ensures
            models_of::<TrackOperationFields>(final(v)@) == models_of::<TrackOperationFields>(old(v)@) + (match &self.track_join_blocks { Some(e) => seq![FieldModel::Node { id: 0xE9, idx: e.index, key: e.id, children: (*e.v).model() }], None => Seq::empty() }),
    {
        match &self.track_join_blocks {
            Some(e) => {
                let d = (&*e.v).duplicate();
                proof {
                    reveal(TrackJoinBlocks::model);
                    assert(d.model() == (*e.v).model());
                }
                let ghost prevv = v@;
                v.push(TrackOperationFields::TrackJoinBlocks(Ebml { index: e.index, v: Box::new(d), id: e.id }));
                proof {
                    assert(models_of::<TrackOperationFields>(v@) =~= models_of::<TrackOperationFields>(prevv).push(v@.last().model()));
                    assert(models_of::<TrackOperationFields>(prevv).push(v@.last().model()) =~= models_of::<TrackOperationFields>(prevv) + (match &self.track_join_blocks { Some(e) => seq![FieldModel::Node { id: 0xE9, idx: e.index, key: e.id, children: (*e.v).model() }], None => Seq::empty() }));
                }
            },
            None => {
                proof {
                    assert(models_of::<TrackOperationFields>(v@) =~= models_of::<TrackOperationFields>(v@) + (match &self.track_join_blocks { Some(e) => seq![FieldModel::Node { id: 0xE9, idx: e.index, key: e.id, children: (*e.v).model() }], None => Seq::empty() }));
                }
            },
        }
    }

    /// The present children, each paired with its ID, in emission order.
    #[verifier::rlimit(100)]
    #[verifier::spinoff_prover]
    pub fn elements(&self) -> (r: Vec<TrackOperationFields>)
        ensures
            models_of::<TrackOperationFields>(r@) == self.model(),
    {
        let mut v: Vec<TrackOperationFields> = Vec::new();
        proof {
            assert(models_of::<TrackOperationFields>(v@) =~= Seq::<FieldModel>::empty());
        }
        self.push_track_combine_planes(&mut v);
        self.push_track_join_blocks(&mut v);
        proof {
            reveal(TrackOperation::raw_model);
            reveal(TrackOperation::model);
            assert(Seq::<FieldModel>::empty() + (match &self.track_combine_planes { Some(e) => seq![FieldModel::Node { id: 0xE3, idx: e.index, key: e.id, children: (*e.v).model() }], None => Seq::empty() }) =~= (match &self.track_combine_planes { Some(e) => seq![FieldModel::Node { id: 0xE3, idx: e.index, key: e.id, children: (*e.v).model() }], None => Seq::empty() }));
            assert(models_of::<TrackOperationFields>(v@) == self.raw_model());
        }
        sort_fields(v)
    }

    /// A deep copy of the `track_combine_planes` slot.
    #[verifier::loop_isolation(false)]
    fn dup_track_combine_planes(&self) -> (r: Option<Ebml<TrackCombinePlanes>>)
        ensures
            (match &r { Some(e) => seq![FieldModel::Node { id: 0xE3, idx: e.index, key: e.id, children: (*e.v).model() }], None => Seq::empty() }) == (match &self.track_combine_planes { Some(e) => seq![FieldModel::Node { id: 0xE3, idx: e.index, key: e.id, children: (*e.v).model() }], None => Seq::empty() }),
    {
        match &self.track_combine_planes {
            Some(e) => {
                let d = (&*e.v).duplicate();
                proof {
                    reveal(TrackCombinePlanes::model);
                    assert(d.model() == (*e.v).model());
                }
                Some(Ebml { index: e.index, v: Box::new(d), id: e.id })
            },
            None => None,
        }
    }

    /// A deep copy of the `track_join_blocks` slot.
    #[verifier::loop_isolation(false)]
    fn dup_track_join_blocks(&self) -> (r: Option<Ebml<TrackJoinBlocks>>)
        ensures
            (match &r { Some(e) => seq![FieldModel::Node { id: 0xE9, idx: e.index, key: e.id, children: (*e.v).model() }], None => Seq::empty() }) == (match &self.track_join_blocks { Some(e) => seq![FieldModel::Node { id: 0xE9, idx: e.index, key: e.id, children: (*e.v).model() }], None => Seq::empty() }),
    {
        match &self.track_join_blocks {
            Some(e) => {
                let d = (&*e.v).duplicate();
                proof {
                    reveal(TrackJoinBlocks::model);
                    assert(d.model() == (*e.v).model());
                }
                Some(Ebml { index: e.index, v: Box::new(d), id: e.id })
            },
            None => None,
        }
    }

    /// A deep copy with the same children, positions, and keys.
    #[verifier::rlimit(100)]
    #[verifier::spinoff_prover]
    pub fn duplicate(&self) -> (r: Self)
        ensures
            r.raw_model() == self.raw_model(),
            r.size == self.size,
    {
        let r = TrackOperation {
            size: self.size,
            track_combine_planes: self.dup_track_combine_planes(),
            track_join_blocks: self.dup_track_join_blocks(),
        };
        proof {
            reveal(TrackOperation::raw_model);
            assert(r.raw_model() == self.raw_model());
        }
        r
    }
}

impl TrackOperation {
    /// Serialise the whole element: body to a scratch buffer first, then
    /// the header with the now-known length, then the body.
    pub fn write_blocking(&self, w: &mut Vec<u8>) -> (r: Result<usize, MatroskaError>)
        ensures
            r is Ok <==> body_ok_rec(self.model()) && cat_bytes(self.model()).len() < 0xFFFFFFFFFFFFFF,
            r is Ok ==> final(w)@ == old(w)@ + node_frame_bytes(0xE2, cat_bytes(self.model()))
                && r->Ok_0 == node_frame_bytes(0xE2, cat_bytes(self.model())).len(),
            r is Err ==> final(w)@ == old(w)@ && r->Err_0 is InvalidVarIntMoreThanVintMax,
    {
        let mut buf: Vec<u8> = Vec::new();
        match self.write_body_blocking(&mut buf) {
            Ok(_) => {},
            Err(e) => {
                return Err(e);
            },
        }
        let start = w.len();
        match crate::io::write_element_id_size(w, 0xE2, buf.len() as u64) {
            Ok(_) => {},
            Err(e) => {
                return Err(e);
            },
        }
        w.append(&mut buf);
        Ok(w.len() - start)
    }

    /// Write this element's header with the given body size.
    pub fn write_header_blocking(&self, w: &mut Vec<u8>, size: u64) -> (r: Result<usize, MatroskaError>)
        ensures
            r is Ok <==> crate::io::size_encodable(size),
            r is Ok ==> final(w)@ == old(w)@ + crate::io::header_bytes(0xE2, size)
                && r->Ok_0 == crate::io::header_bytes(0xE2, size).len(),
            r is Err ==> final(w)@ == old(w)@ && r->Err_0 is InvalidVarIntMoreThanVintMax,
    {
        crate::io::write_element_id_size(w, 0xE2, size)
    }

    /// Write the body: every present child, in emission order.
    #[verifier::loop_isolation(false)]
    #[verifier::rlimit(60)]
    #[verifier::spinoff_prover]
    pub fn write_body_blocking(&self, w: &mut Vec<u8>) -> (r: Result<usize, MatroskaError>)
        ensures
            r is Ok <==> body_ok_rec(self.model()),
            r is Ok ==> final(w)@ == old(w)@ + cat_bytes(self.model())
                && r->Ok_0 == cat_bytes(self.model()).len(),
            r is Err ==> r->Err_0 is InvalidVarIntMoreThanVintMax,
    {
        let fields = self.elements();
        let start = w.len();
        let ghost ms = self.model();
        let mut i: usize = 0;
        while i < fields.len()
            invariant
                i <= fields@.len(),
                models_of::<TrackOperationFields>(fields@) == ms,
                w@ == old(w)@ + cat_bytes(ms.take(i as int)),
                body_ok_rec(ms.take(i as int)),
            decreases fields@.len() - i,
        {
            proof {
                assert(models_of::<TrackOperationFields>(fields@)[i as int] == ms[i as int]);
            }
            match fields[i].write_el(w) {
                Ok(_) => {},
                Err(e) => {
                    proof {
                        lemma_body_ok_forall(ms);
                    }
                    return Err(e);
                },
            }
            proof {
                assert(ms.take(i + 1) =~= ms.take(i as int).push(ms[i as int]));
                lemma_cat_snoc(ms.take(i as int), ms[i as int]);
            }
            i += 1;
        }
        proof {
            assert(ms.take(ms.len() as int) =~= ms);
            lemma_body_ok_forall(ms);
        }
        Ok(w.len() - start)
    }
}

/// One present child of a `TrackOperation`, paired with its value.
#[derive(Debug)]
pub enum TrackOperationFields {
    TrackCombinePlanes(Ebml<TrackCombinePlanes>),
    TrackJoinBlocks(Ebml<TrackJoinBlocks>),
}

impl TrackOperationFields {
    /// The child's element ID and its two ordering slots.
    #[verifier::rlimit(60)]
    #[verifier::spinoff_prover]
    pub fn index(&self) -> (r: (EbmlId, Option<u64>, u64))
        ensures
            r.0.spec_u64() == self.model().eid(),
            r.1 == self.model().idx(),
            r.2 == self.model().key(),
    {
        match self {
            Self::TrackCombinePlanes(val) => (EbmlId::TrackCombinePlanes, val.index, val.id),
            Self::TrackJoinBlocks(val) => (EbmlId::TrackJoinBlocks, val.index, val.id),
        }
    }

    /// Write this child's frame.
    #[verifier::rlimit(60)]
    #[verifier::spinoff_prover]
    pub fn write_el(&self, w: &mut Vec<u8>) -> (r: Result<usize, MatroskaError>)
        ensures
            r is Ok <==> el_ok(self.model()),
            r is Ok ==> final(w)@ == old(w)@ + el_bytes(self.model())
                && r->Ok_0 == el_bytes(self.model()).len(),
            r is Err ==> final(w)@ == old(w)@ && r->Err_0 is InvalidVarIntMoreThanVintMax,
    {
        match self {
            Self::TrackCombinePlanes(val) => (*val.v).write_blocking(w),
            Self::TrackJoinBlocks(val) => (*val.v).write_blocking(w),
        }
    }
}

impl EbmlField for TrackOperationFields {
    open spec fn model(&self) -> FieldModel {
        match self {
            Self::TrackCombinePlanes(e) => FieldModel::Node { id: 0xE3, idx: e.index, key: e.id, children: (*e.v).model() },
            Self::TrackJoinBlocks(e) => FieldModel::Node { id: 0xE9, idx: e.index, key: e.id, children: (*e.v).model() },
        }
    }

    fn sort_key(&self) -> (r: (Option<u64>, u64)) {
        match self {
            Self::TrackCombinePlanes(e) => (e.index, e.id),
            Self::TrackJoinBlocks(e) => (e.index, e.id),
        }
    }
}

/// The `TrackCombinePlanes` structural element.
#[derive(Debug)]
pub struct TrackCombinePlanes {
    pub size: u64,
    pub track_plane: Vec<Ebml<TrackPlane>>,
}

/// The models of the `track_plane` children of a `TrackCombinePlanes`.
pub open spec fn trackcombineplanes_track_plane_models(s: Seq<Ebml<TrackPlane>>) -> Seq<FieldModel> {
    s.map_values(|e: Ebml<TrackPlane>| FieldModel::Node { id: 0xE4, idx: e.index, key: e.id, children: (*e.v).model() })
}

impl TrackCombinePlanes {
    /// The models of the children, in declaration order.
    #[verifier::opaque]
    pub open spec fn raw_model(self) -> Seq<FieldModel>
    {
        trackcombineplanes_track_plane_models(self.track_plane@)
    }

    /// The children in emission order.
    #[verifier::opaque]
    pub open spec fn model(self) -> Seq<FieldModel>
    {
        sort_fields_spec(self.raw_model())
    }

    /// Append the `track_plane` child values to a field run.
    #[verifier::loop_isolation(false)]
    fn push_track_plane(&self, v: &mut Vec<TrackCombinePlanesFields>)
        ensures
            models_of::<TrackCombinePlanesFields>(final(v)@) == models_of::<TrackCombinePlanesFields>(old(v)@) + trackcombineplanes_track_plane_models(self.track_plane@),
    {
        let ghost base = models_of::<TrackCombinePlanesFields>(v@);
        let mut i: usize = 0;
        while i < self.track_plane.len()
            invariant
                i <= self.track_plane@.len(),
                models_of::<TrackCombinePlanesFields>(v@) == base + trackcombineplanes_track_plane_models(self.track_plane@.take(i as int)),
            decreases self.track_plane@.len() - i,
        {
            let e = &self.track_plane[i];
            let d = (&*e.v).duplicate();
            proof {
                reveal(TrackPlane::model);
                assert(d.model() == (*e.v).model());
            }
            let ghost prevv = v@;
            v.push(TrackCombinePlanesFields::TrackPlane(Ebml { index: e.index, v: Box::new(d), id: e.id }));
            proof {
                assert(self.track_plane@.take(i + 1) =~= self.track_plane@.take(i as int).push(self.track_plane@[i as int]));
                assert(models_of::<TrackCombinePlanesFields>(v@) =~= models_of::<TrackCombinePlanesFields>(prevv).push(v@.last().model()));
                assert(trackcombineplanes_track_plane_models(self.track_plane@.take(i + 1)) =~= trackcombineplanes_track_plane_models(self.track_plane@.take(i as int)).push(v@.last().model()));
                assert(base + trackcombineplanes_track_plane_models(self.track_plane@.take(i + 1)) =~= (base + trackcombineplanes_track_plane_models(self.track_plane@.take(i as int))).push(v@.last().model()));
            }
            i += 1;
        }
        proof {
            assert(self.track_plane@.take(self.track_plane@.len() as int) =~= self.track_plane@);
        }
    }

    /// The present children, each paired with its ID, in emission order.
    #[verifier::rlimit(100)]
    #[verifier::spinoff_prover]
    pub fn elements(&self) -> (r: Vec<TrackCombinePlanesFields>)
        ensures
            models_of::<TrackCombinePlanesFields>(r@) == self.model(),
    {
        let mut v: Vec<TrackCombinePlanesFields> = Vec::new();
        proof {
            assert(models_of::<TrackCombinePlanesFields>(v@) =~= Seq::<FieldModel>::empty());
        }
        self.push_track_plane(&mut v);
        proof {
            reveal(TrackCombinePlanes::raw_model);
            reveal(TrackCombinePlanes::model);
            assert(Seq::<FieldModel>::empty() + trackcombineplanes_track_plane_models(self.track_plane@) =~= trackcombineplanes_track_plane_models(self.track_plane@));
            assert(models_of::<TrackCombinePlanesFields>(v@) == self.raw_model());
        }
        sort_fields(v)
    }

    /// A deep copy of the `track_plane` slot.
    #[verifier::loop_isolation(false)]
    fn dup_track_plane(&self) -> (r: Vec<Ebml<TrackPlane>>)
        ensures
            trackcombineplanes_track_plane_models(r@) == trackcombineplanes_track_plane_models(self.track_plane@),
    {
        let mut out: Vec<Ebml<TrackPlane>> = Vec::new();
        let mut i: usize = 0;
        while i < self.track_plane.len()
            invariant
                i <= self.track_plane@.len(),
                trackcombineplanes_track_plane_models(out@) == trackcombineplanes_track_plane_models(self.track_plane@.take(i as int)),
            decreases self.track_plane@.len() - i,
        {
            let e = &self.track_plane[i];
            let d = (&*e.v).duplicate();
            proof {
                reveal(TrackPlane::model);
                assert(d.model() == (*e.v).model());
            }
            let ghost prevo = out@;
            out.push(Ebml { index: e.index, v: Box::new(d), id: e.id });
            proof {
                assert(self.track_plane@.take(i + 1) =~= self.track_plane@.take(i as int).push(self.track_plane@[i as int]));
                assert(out@.drop_last() =~= prevo);
                assert(self.track_plane@.take(i + 1).drop_last() =~= self.track_plane@.take(i as int));
                assert(FieldModel::Node { id: 0xE4, idx: (out@.last()).index, key: (out@.last()).id, children: (*(out@.last()).v).model() } == FieldModel::Node { id: 0xE4, idx: (self.track_plane@[i as int]).index, key: (self.track_plane@[i as int]).id, children: (*(self.track_plane@[i as int]).v).model() });
                assert(trackcombineplanes_track_plane_models(out@) =~= trackcombineplanes_track_plane_models(prevo).push(FieldModel::Node { id: 0xE4, idx: (out@.last()).index, key: (out@.last()).id, children: (*(out@.last()).v).model() }));
                assert(trackcombineplanes_track_plane_models(self.track_plane@.take(i + 1)) =~= trackcombineplanes_track_plane_models(self.track_plane@.take(i as int)).push(FieldModel::Node { id: 0xE4, idx: (self.track_plane@[i as int]).index, key: (self.track_plane@[i as int]).id, children: (*(self.track_plane@[i as int]).v).model() }));
            }
            i += 1;
        }
        proof {
            assert(self.track_plane@.take(self.track_plane@.len() as int) =~= self.track_plane@);
        }
        out
    }

    /// A deep copy with the same children, positions, and keys.
    #[verifier::rlimit(100)]
    #[verifier::spinoff_prover]
    pub fn duplicate(&self) -> (r: Self)
        ensures
            r.raw_model() == self.raw_model(),
            r.size == self.size,
    {
        let r = TrackCombinePlanes {
            size: self.size,
            track_plane: self.dup_track_plane(),
        };
        proof {
            reveal(TrackCombinePlanes::raw_model);
            assert(r.raw_model() == self.raw_model());
        }
        r
    }
}

impl TrackCombinePlanes {
    /// Serialise the whole element: body to a scratch buffer first, then
    /// the header with the now-known length, then the body.
    pub fn write_blocking(&self, w: &mut Vec<u8>) -> (r: Result<usize, MatroskaError>)
        ensures
            r is Ok <==> body_ok_rec(self.model()) && cat_bytes(self.model()).len() < 0xFFFFFFFFFFFFFF,
            r is Ok ==> final(w)@ == old(w)@ + node_frame_bytes(0xE3, cat_bytes(self.model()))
                && r->Ok_0 == node_frame_bytes(0xE3, cat_bytes(self.model())).len(),
            r is Err ==> final(w)@ == old(w)@ && r->Err_0 is InvalidVarIntMoreThanVintMax,
    {
        let mut buf: Vec<u8> = Vec::new();
        match self.write_body_blocking(&mut buf) {
            Ok(_) => {},
            Err(e) => {
                return Err(e);
            },
        }
        let start = w.len();
        match crate::io::write_element_id_size(w, 0xE3, buf.len() as u64) {
            Ok(_) => {},
            Err(e) => {
                return Err(e);
            },
        }
        w.append(&mut buf);
        Ok(w.len() - start)
    }

    /// Write this element's header with the given body size.
    pub fn write_header_blocking(&self, w: &mut Vec<u8>, size: u64) -> (r: Result<usize, MatroskaError>)
        ensures
            r is Ok <==> crate::io::size_encodable(size),
            r is Ok ==> final(w)@ == old(w)@ + crate::io::header_bytes(0xE3, size)
                && r->Ok_0 == crate::io::header_bytes(0xE3, size).len(),
            r is Err ==> final(w)@ == old(w)@ && r->Err_0 is InvalidVarIntMoreThanVintMax,
    {
        crate::io::write_element_id_size(w, 0xE3, size)
    }

    /// Write the body: every present child, in emission order.
    #[verifier::loop_isolation(false)]
    #[verifier::rlimit(60)]
    #[verifier::spinoff_prover]
    pub fn write_body_blocking(&self, w: &mut Vec<u8>) -> (r: Result<usize, MatroskaError>)
        ensures
            r is Ok <==> body_ok_rec(self.model()),
            r is Ok ==> final(w)@ == old(w)@ + cat_bytes(self.model())
                && r->Ok_0 == cat_bytes(self.model()).len(),
            r is Err ==> r->Err_0 is InvalidVarIntMoreThanVintMax,
    {
        let fields = self.elements();
        let start = w.len();
        let ghost ms = self.model();
        let mut i: usize = 0;
        while i < fields.len()
            invariant
                i <= fields@.len(),
                models_of::<TrackCombinePlanesFields>(fields@) == ms,
                w@ == old(w)@ + cat_bytes(ms.take(i as int)),
                body_ok_rec(ms.take(i as int)),
            decreases fields@.len() - i,
        {
            proof {
                assert(models_of::<TrackCombinePlanesFields>(fields@)[i as int] == ms[i as int]);
            }
            match fields[i].write_el(w) {
                Ok(_) => {},
                Err(e) => {
                    proof {
                        lemma_body_ok_forall(ms);
                    }
                    return Err(e);
                },
            }
            proof {
                assert(ms.take(i + 1) =~= ms.take(i as int).push(ms[i as int]));
                lemma_cat_snoc(ms.take(i as int), ms[i as int]);
            }
            i += 1;
        }
        proof {
            assert(ms.take(ms.len() as int) =~= ms);
            lemma_body_ok_forall(ms);
        }
        Ok(w.len() - start)
    }
}

/// One present child of a `TrackCombinePlanes`, paired with its value.
#[derive(Debug)]
pub enum TrackCombinePlanesFields {
    TrackPlane(Ebml<TrackPlane>),
}

impl TrackCombinePlanesFields {
    /// The child's element ID and its two ordering slots.
    #[verifier::rlimit(60)]
    #[verifier::spinoff_prover]
    pub fn index(&self) -> (r: (EbmlId, Option<u64>, u64))
        ensures
            r.0.spec_u64() == self.model().eid(),
            r.1 == self.model().idx(),
            r.2 == self.model().key(),
    {
        match self {
            Self::TrackPlane(val) => (EbmlId::TrackPlane, val.index, val.id),
        }
    }

    /// Write this child's frame.
    #[verifier::rlimit(60)]
    #[verifier::spinoff_prover]
    pub fn write_el(&self, w: &mut Vec<u8>) -> (r: Result<usize, MatroskaError>)
        ensures
            r is Ok <==> el_ok(self.model()),
            r is Ok ==> final(w)@ == old(w)@ + el_bytes(self.model())
                && r->Ok_0 == el_bytes(self.model()).len(),
            r is Err ==> final(w)@ == old(w)@ && r->Err_0 is InvalidVarIntMoreThanVintMax,
    {
        match self {
            Self::TrackPlane(val) => (*val.v).write_blocking(w),
        }
    }
}

impl EbmlField for TrackCombinePlanesFields {
    open spec fn model(&self) -> FieldModel {
        match self {
            Self::TrackPlane(e) => FieldModel::Node { id: 0xE4, idx: e.index, key: e.id, children: (*e.v).model() },
        }
    }

    fn sort_key(&self) -> (r: (Option<u64>, u64)) {
        match self {
            Self::TrackPlane(e) => (e.index, e.id),
        }
    }
}

/// The `TrackPlane` structural element.
#[derive(Debug)]
pub struct TrackPlane {
    pub size: u64,
    pub track_plane_uid: Ebml<u64>,
    pub track_plane_type: Ebml<u64>,
}

impl TrackPlane {
    /// The models of the children, in declaration order.
    #[verifier::opaque]
    pub open spec fn raw_model(self) -> Seq<FieldModel>
    {
        seq![FieldModel::UInt { id: 0xE5, idx: self.track_plane_uid.index, key: self.track_plane_uid.id, v: *self.track_plane_uid.v }]
            + seq![FieldModel::UInt { id: 0xE6, idx: self.track_plane_type.index, key: self.track_plane_type.id, v: *self.track_plane_type.v }]
    }

    /// The children in emission order.
    #[verifier::opaque]
    pub open spec fn model(self) -> Seq<FieldModel>
    {
        sort_fields_spec(self.raw_model())
    }

    /// Append the `track_plane_uid` child values to a field run.
    #[verifier::loop_isolation(false)]
    fn push_track_plane_uid(&self, v: &mut Vec<TrackPlaneFields>)
        ensures
            models_of::<TrackPlaneFields>(final(v)@) == models_of::<TrackPlaneFields>(old(v)@) + seq![FieldModel::UInt { id: 0xE5, idx: self.track_plane_uid.index, key: self.track_plane_uid.id, v: *self.track_plane_uid.v }],
    {
        let ghost prevv = v@;
        v.push(TrackPlaneFields::TrackPlaneUid(crate::dup_ebml_copy(&self.track_plane_uid)));
        proof {
            assert(models_of::<TrackPlaneFields>(v@) =~= models_of::<TrackPlaneFields>(prevv).push(v@.last().model()));
            assert(models_of::<TrackPlaneFields>(prevv).push(v@.last().model()) =~= models_of::<TrackPlaneFields>(prevv) + seq![FieldModel::UInt { id: 0xE5, idx: self.track_plane_uid.index, key: self.track_plane_uid.id, v: *self.track_plane_uid.v }]);
        }
    }

    /// Append the `track_plane_type` child values to a field run.
    #[verifier::loop_isolation(false)]
    fn push_track_plane_type(&self, v: &mut Vec<TrackPlaneFields>)
        ensures
            models_of::<TrackPlaneFields>(final(v)@) == models_of::<TrackPlaneFields>(old(v)@) + seq![FieldModel::UInt { id: 0xE6, idx: self.track_plane_type.index, key: self.track_plane_type.id, v: *self.track_plane_type.v }],
    {
        let ghost prevv = v@;
        v.push(TrackPlaneFields::TrackPlaneType(crate::dup_ebml_copy(&self.track_plane_type)));
        proof {
            assert(models_of::<TrackPlaneFields>(v@) =~= models_of::<TrackPlaneFields>(prevv).push(v@.last().model()));
            assert(models_of::<TrackPlaneFields>(prevv).push(v@.last().model()) =~= models_of::<TrackPlaneFields>(prevv) + seq![FieldModel::UInt { id: 0xE6, idx: self.track_plane_type.index, key: self.track_plane_type.id, v: *self.track_plane_type.v }]);
        }
    }

    /// The present children, each paired with its ID, in emission order.
    #[verifier::rlimit(100)]
    #[verifier::spinoff_prover]
    pub fn elements(&self) -> (r: Vec<TrackPlaneFields>)
        ensures
            models_of::<TrackPlaneFields>(r@) == self.model(),
    {
        let mut v: Vec<TrackPlaneFields> = Vec::new();
        proof {
            assert(models_of::<TrackPlaneFields>(v@) =~= Seq::<FieldModel>::empty());
        }
        self.push_track_plane_uid(&mut v);
        self.push_track_plane_type(&mut v);
        proof {
            reveal(TrackPlane::raw_model);
            reveal(TrackPlane::model);
            assert(Seq::<FieldModel>::empty() + seq![FieldModel::UInt { id: 0xE5, idx: self.track_plane_uid.index, key: self.track_plane_uid.id, v: *self.track_plane_uid.v }] =~= seq![FieldModel::UInt { id: 0xE5, idx: self.track_plane_uid.index, key: self.track_plane_uid.id, v: *self.track_plane_uid.v }]);
            assert(models_of::<TrackPlaneFields>(v@) == self.raw_model());
        }
        sort_fields(v)
    }

    /// A deep copy of the `track_plane_uid` slot.
    #[verifier::loop_isolation(false)]
    fn dup_track_plane_uid(&self) -> (r: Ebml<u64>)
        ensures
            seq![FieldModel::UInt { id: 0xE5, idx: r.index, key: r.id, v: *r.v }] == seq![FieldModel::UInt { id: 0xE5, idx: self.track_plane_uid.index, key: self.track_plane_uid.id, v: *self.track_plane_uid.v }],
    {
        crate::dup_ebml_copy(&self.track_plane_uid)
    }

    /// A deep copy of the `track_plane_type` slot.
    #[verifier::loop_isolation(false)]
    fn dup_track_plane_type(&self) -> (r: Ebml<u64>)
        ensures
            seq![FieldModel::UInt { id: 0xE6, idx: r.index, key: r.id, v: *r.v }] == seq![FieldModel::UInt { id: 0xE6, idx: self.track_plane_type.index, key: self.track_plane_type.id, v: *self.track_plane_type.v }],
    {
        crate::dup_ebml_copy(&self.track_plane_type)
    }

    /// A deep copy with the same children, positions, and keys.
    #[verifier::rlimit(100)]
    #[verifier::spinoff_prover]
    pub fn duplicate(&self) -> (r: Self)
        ensures
            r.raw_model() == self.raw_model(),
            r.size == self.size,
    {
        let r = TrackPlane {
            size: self.size,
            track_plane_uid: self.dup_track_plane_uid(),
            track_plane_type: self.dup_track_plane_type(),
        };
        proof {
            reveal(TrackPlane::raw_model);
            assert(r.raw_model() == self.raw_model());
        }
        r
    }
}

impl TrackPlane {
    /// Serialise the whole element: body to a scratch buffer first, then
    /// the header with the now-known length, then the body.
    pub fn write_blocking(&self, w: &mut Vec<u8>) -> (r: Result<usize, MatroskaError>)
        ensures
            r is Ok <==> body_ok_rec(self.model()) && cat_bytes(self.model()).len() < 0xFFFFFFFFFFFFFF,
            r is Ok ==> final(w)@ == old(w)@ + node_frame_bytes(0xE4, cat_bytes(self.model()))
                && r->Ok_0 == node_frame_bytes(0xE4, cat_bytes(self.model())).len(),
            r is Err ==> final(w)@ == old(w)@ && r->Err_0 is InvalidVarIntMoreThanVintMax,
    {
        let mut buf: Vec<u8> = Vec::new();
        match self.write_body_blocking(&mut buf) {
            Ok(_) => {},
            Err(e) => {
                return Err(e);
            },
        }
        let start = w.len();
        match crate::io::write_element_id_size(w, 0xE4, buf.len() as u64) {
            Ok(_) => {},
            Err(e) => {
                return Err(e);
            },
        }
        w.append(&mut buf);
        Ok(w.len() - start)
    }

    /// Write this element's header with the given body size.
    pub fn write_header_blocking(&self, w: &mut Vec<u8>, size: u64) -> (r: Result<usize, MatroskaError>)
        ensures
            r is Ok <==> crate::io::size_encodable(size),
            r is Ok ==> final(w)@ == old(w)@ + crate::io::header_bytes(0xE4, size)
                && r->Ok_0 == crate::io::header_bytes(0xE4, size).len(),
            r is Err ==> final(w)@ == old(w)@ && r->Err_0 is InvalidVarIntMoreThanVintMax,
    {
        crate::io::write_element_id_size(w, 0xE4, size)
    }

    /// Write the body: every present child, in emission order.
    #[verifier::loop_isolation(false)]
    #[verifier::rlimit(60)]
    #[verifier::spinoff_prover]
    pub fn write_body_blocking(&self, w: &mut Vec<u8>) -> (r: Result<usize, MatroskaError>)
        ensures
            r is Ok <==> body_ok_rec(self.model()),
            r is Ok ==> final(w)@ == old(w)@ + cat_bytes(self.model())
                && r->Ok_0 == cat_bytes(self.model()).len(),
            r is Err ==> r->Err_0 is InvalidVarIntMoreThanVintMax,
    {
        let fields = self.elements();
        let start = w.len();
        let ghost ms = self.model();
        let mut i: usize = 0;
        while i < fields.len()
            invariant
                i <= fields@.len(),
                models_of::<TrackPlaneFields>(fields@) == ms,
                w@ == old(w)@ + cat_bytes(ms.take(i as int)),
                body_ok_rec(ms.take(i as int)),
            decreases fields@.len() - i,
        {
            proof {
                assert(models_of::<TrackPlaneFields>(fields@)[i as int] == ms[i as int]);
            }
            match fields[i].write_el(w) {
                Ok(_) => {},
                Err(e) => {
                    proof {
                        lemma_body_ok_forall(ms);
                    }
                    return Err(e);
                },
            }
            proof {
                assert(ms.take(i + 1) =~= ms.take(i as int).push(ms[i as int]));
                lemma_cat_snoc(ms.take(i as int), ms[i as int]);
            }
            i += 1;
        }
        proof {
            assert(ms.take(ms.len() as int) =~= ms);
            lemma_body_ok_forall(ms);
        }
        Ok(w.len() - start)
    }
}

/// One present child of a `TrackPlane`, paired with its value.
#[derive(Debug)]
pub enum TrackPlaneFields {
    TrackPlaneUid(Ebml<u64>),
    TrackPlaneType(Ebml<u64>),
}

impl TrackPlaneFields {
    /// The child's element ID and its two ordering slots.
    #[verifier::rlimit(60)]
    #[verifier::spinoff_prover]
    pub fn index(&self) -> (r: (EbmlId, Option<u64>, u64))
        ensures
            r.0.spec_u64() == self.model().eid(),
            r.1 == self.model().idx(),
            r.2 == self.model().key(),
    {
        match self {
            Self::TrackPlaneUid(val) => (EbmlId::TrackPlaneUid, val.index, val.id),
            Self::TrackPlaneType(val) => (EbmlId::TrackPlaneType, val.index, val.id),
        }
    }

    /// Write this child's frame.
    #[verifier::rlimit(60)]
    #[verifier::spinoff_prover]
    pub fn write_el(&self, w: &mut Vec<u8>) -> (r: Result<usize, MatroskaError>)
        ensures
            r is Ok <==> el_ok(self.model()),
            r is Ok ==> final(w)@ == old(w)@ + el_bytes(self.model())
                && r->Ok_0 == el_bytes(self.model()).len(),
            r is Err ==> final(w)@ == old(w)@ && r->Err_0 is InvalidVarIntMoreThanVintMax,
    {
        match self {
            Self::TrackPlaneUid(val) => crate::io::write_el_uint(w, 0xE5, &*val.v),
            Self::TrackPlaneType(val) => crate::io::write_el_uint(w, 0xE6, &*val.v),
        }
    }
}

impl EbmlField for TrackPlaneFields {
    open spec fn model(&self) -> FieldModel {
        match self {
            Self::TrackPlaneUid(e) => FieldModel::UInt { id: 0xE5, idx: e.index, key: e.id, v: *e.v },
            Self::TrackPlaneType(e) => FieldModel::UInt { id: 0xE6, idx: e.index, key: e.id, v: *e.v },
        }
    }

    fn sort_key(&self) -> (r: (Option<u64>, u64)) {
        match self {
            Self::TrackPlaneUid(e) => (e.index, e.id),
            Self::TrackPlaneType(e) => (e.index, e.id),
        }
    }
}

/// The `TrackJoinBlocks` structural element.
#[derive(Debug)]
pub struct TrackJoinBlocks {
    pub size: u64,
    pub track_join_uid: Vec<Ebml<u64>>,
}

/// The models of the `track_join_uid` children of a `TrackJoinBlocks`.
pub open spec fn trackjoinblocks_track_join_uid_models(s: Seq<Ebml<u64>>) -> Seq<FieldModel> {
    s.map_values(|e: Ebml<u64>| FieldModel::UInt { id: 0xED, idx: e.index, key: e.id, v: *e.v })
}

impl TrackJoinBlocks {
    /// The models of the children, in declaration order.
    #[verifier::opaque]
    pub open spec fn raw_model(self) -> Seq<FieldModel>
    {
        trackjoinblocks_track_join_uid_models(self.track_join_uid@)
    }

    /// The children in emission order.
    #[verifier::opaque]
    pub open spec fn model(self) -> Seq<FieldModel>
    {
        sort_fields_spec(self.raw_model())
    }

    /// Append the `track_join_uid` child values to a field run.
    #[verifier::loop_isolation(false)]
    fn push_track_join_uid(&self, v: &mut Vec<TrackJoinBlocksFields>)
        ensures
            models_of::<TrackJoinBlocksFields>(final(v)@) == models_of::<TrackJoinBlocksFields>(old(v)@) + trackjoinblocks_track_join_uid_models(self.track_join_uid@),
    {
        let ghost base = models_of::<TrackJoinBlocksFields>(v@);
        let mut i: usize = 0;
        while i < self.track_join_uid.len()
            invariant
                i <= self.track_join_uid@.len(),
                models_of::<TrackJoinBlocksFields>(v@) == base + trackjoinblocks_track_join_uid_models(self.track_join_uid@.take(i as int)),
            decreases self.track_join_uid@.len() - i,
        {
            let e = &self.track_join_uid[i];
            let ghost prevv = v@;
            v.push(TrackJoinBlocksFields::TrackJoinUid(crate::dup_ebml_copy(e)));
            proof {
                assert(self.track_join_uid@.take(i + 1) =~= self.track_join_uid@.take(i as int).push(self.track_join_uid@[i as int]));
                assert(models_of::<TrackJoinBlocksFields>(v@) =~= models_of::<TrackJoinBlocksFields>(prevv).push(v@.last().model()));
                assert(trackjoinblocks_track_join_uid_models(self.track_join_uid@.take(i + 1)) =~= trackjoinblocks_track_join_uid_models(self.track_join_uid@.take(i as int)).push(v@.last().model()));
                assert(base + trackjoinblocks_track_join_uid_models(self.track_join_uid@.take(i + 1)) =~= (base + trackjoinblocks_track_join_uid_models(self.track_join_uid@.take(i as int))).push(v@.last().model()));
            }
            i += 1;
        }
        proof {
            assert(self.track_join_uid@.take(self.track_join_uid@.len() as int) =~= self.track_join_uid@);
        }
    }

    /// The present children, each paired with its ID, in emission order.
    #[verifier::rlimit(100)]
    #[verifier::spinoff_prover]
    pub fn elements(&self) -> (r: Vec<TrackJoinBlocksFields>)
        ensures
            models_of::<TrackJoinBlocksFields>(r@) == self.model(),
    {
        let mut v: Vec<TrackJoinBlocksFields> = Vec::new();
        proof {
            assert(models_of::<TrackJoinBlocksFields>(v@) =~= Seq::<FieldModel>::empty());
        }
        self.push_track_join_uid(&mut v);
        proof {
            reveal(TrackJoinBlocks::raw_model);
            reveal(TrackJoinBlocks::model);
            assert(Seq::<FieldModel>::empty() + trackjoinblocks_track_join_uid_models(self.track_join_uid@) =~= trackjoinblocks_track_join_uid_models(self.track_join_uid@));
            assert(models_of::<TrackJoinBlocksFields>(v@) == self.raw_model());
        }
        sort_fields(v)
    }

    /// A deep copy of the `track_join_uid` slot.
    #[verifier::loop_isolation(false)]
    fn dup_track_join_uid(&self) -> (r: Vec<Ebml<u64>>)
        ensures
            trackjoinblocks_track_join_uid_models(r@) == trackjoinblocks_track_join_uid_models(self.track_join_uid@),
    {
        let mut out: Vec<Ebml<u64>> = Vec::new();
        let mut i: usize = 0;
        while i < self.track_join_uid.len()
            invariant
                i <= self.track_join_uid@.len(),
                trackjoinblocks_track_join_uid_models(out@) == trackjoinblocks_track_join_uid_models(self.track_join_uid@.take(i as int)),
            decreases self.track_join_uid@.len() - i,
        {
            let e = &self.track_join_uid[i];
            let ghost prevo = out@;
            out.push(crate::dup_ebml_copy(e));
            proof {
                assert(self.track_join_uid@.take(i + 1) =~= self.track_join_uid@.take(i as int).push(self.track_join_uid@[i as int]));
                assert(out@.drop_last() =~= prevo);
                assert(self.track_join_uid@.take(i + 1).drop_last() =~= self.track_join_uid@.take(i as int));
                assert(FieldModel::UInt { id: 0xED, idx: (out@.last()).index, key: (out@.last()).id, v: *(out@.last()).v } == FieldModel::UInt { id: 0xED, idx: (self.track_join_uid@[i as int]).index, key: (self.track_join_uid@[i as int]).id, v: *(self.track_join_uid@[i as int]).v });
                assert(trackjoinblocks_track_join_uid_models(out@) =~= trackjoinblocks_track_join_uid_models(prevo).push(FieldModel::UInt { id: 0xED, idx: (out@.last()).index, key: (out@.last()).id, v: *(out@.last()).v }));
                assert(trackjoinblocks_track_join_uid_models(self.track_join_uid@.take(i + 1)) =~= trackjoinblocks_track_join_uid_models(self.track_join_uid@.take(i as int)).push(FieldModel::UInt { id: 0xED, idx: (self.track_join_uid@[i as int]).index, key: (self.track_join_uid@[i as int]).id, v: *(self.track_join_uid@[i as int]).v }));
            }
            i += 1;
        }
        proof {
            assert(self.track_join_uid@.take(self.track_join_uid@.len() as int) =~= self.track_join_uid@);
        }
        out
    }

    /// A deep copy with the same children, positions, and keys.
    #[verifier::rlimit(100)]
    #[verifier::spinoff_prover]
    pub fn duplicate(&self) -> (r: Self)
        ensures
            r.raw_model() == self.raw_model(),
            r.size == self.size,
    {
        let r = TrackJoinBlocks {
            size: self.size,
            track_join_uid: self.dup_track_join_uid(),
        };
        proof {
            reveal(TrackJoinBlocks::raw_model);
            assert(r.raw_model() == self.raw_model());
        }
        r
    }
}

impl TrackJoinBlocks {
    /// Serialise the whole element: body to a scratch buffer first, then
    /// the header with the now-known length, then the body.
    pub fn write_blocking(&self, w: &mut Vec<u8>) -> (r: Result<usize, MatroskaError>)
        ensures
            r is Ok <==> body_ok_rec(self.model()) && cat_bytes(self.model()).len() < 0xFFFFFFFFFFFFFF,
            r is Ok ==> final(w)@ == old(w)@ + node_frame_bytes(0xE9, cat_bytes(self.model()))
                && r->Ok_0 == node_frame_bytes(0xE9, cat_bytes(self.model())).len(),
            r is Err ==> final(w)@ == old(w)@ && r->Err_0 is InvalidVarIntMoreThanVintMax,
    {
        let mut buf: Vec<u8> = Vec::new();
        match self.write_body_blocking(&mut buf) {
            Ok(_) => {},
            Err(e) => {
                return Err(e);
            },
        }
        let start = w.len();
        match crate::io::write_element_id_size(w, 0xE9, buf.len() as u64) {
            Ok(_) => {},
            Err(e) => {
                return Err(e);
            },
        }
        w.append(&mut buf);
        Ok(w.len() - start)
    }

    /// Write this element's header with the given body size.
    pub fn write_header_blocking(&self, w: &mut Vec<u8>, size: u64) -> (r: Result<usize, MatroskaError>)
        ensures
            r is Ok <==> crate::io::size_encodable(size),
            r is Ok ==> final(w)@ == old(w)@ + crate::io::header_bytes(0xE9, size)
                && r->Ok_0 == crate::io::header_bytes(0xE9, size).len(),
            r is Err ==> final(w)@ == old(w)@ && r->Err_0 is InvalidVarIntMoreThanVintMax,
    {
        crate::io::write_element_id_size(w, 0xE9, size)
    }

    /// Write the body: every present child, in emission order.
    #[verifier::loop_isolation(false)]
    #[verifier::rlimit(60)]
    #[verifier::spinoff_prover]
    pub fn write_body_blocking(&self, w: &mut Vec<u8>) -> (r: Result<usize, MatroskaError>)
        ensures
            r is Ok <==> body_ok_rec(self.model()),
            r is Ok ==> final(w)@ == old(w)@ + cat_bytes(self.model())
                && r->Ok_0 == cat_bytes(self.model()).len(),
            r is Err ==> r->Err_0 is InvalidVarIntMoreThanVintMax,
    {
        let fields = self.elements();
        let start = w.len();
        let ghost ms = self.model();
        let mut i: usize = 0;
        while i < fields.len()
            invariant
                i <= fields@.len(),
                models_of::<TrackJoinBlocksFields>(fields@) == ms,
                w@ == old(w)@ + cat_bytes(ms.take(i as int)),
                body_ok_rec(ms.take(i as int)),
            decreases fields@.len() - i,
        {
            proof {
                assert(models_of::<TrackJoinBlocksFields>(fields@)[i as int] == ms[i as int]);
            }
            match fields[i].write_el(w) {
                Ok(_) => {},
                Err(e) => {
                    proof {
                        lemma_body_ok_forall(ms);
                    }
                    return Err(e);
                },
            }
            proof {
                assert(ms.take(i + 1) =~= ms.take(i as int).push(ms[i as int]));
                lemma_cat_snoc(ms.take(i as int), ms[i as int]);
            }
            i += 1;
        }
        proof {
            assert(ms.take(ms.len() as int) =~= ms);
            lemma_body_ok_forall(ms);
        }
        Ok(w.len() - start)
    }
}

/// One present child of a `TrackJoinBlocks`, paired with its value.
#[derive(Debug)]
pub enum TrackJoinBlocksFields {
    TrackJoinUid(Ebml<u64>),
}

impl TrackJoinBlocksFields {
    /// The child's element ID and its two ordering slots.
    #[verifier::rlimit(60)]
    #[verifier::spinoff_prover]
    pub fn index(&self) -> (r: (EbmlId, Option<u64>, u64))
        ensures
            r.0.spec_u64() == self.model().eid(),
            r.1 == self.model().idx(),
            r.2 == self.model().key(),
    {
        match self {
            Self::TrackJoinUid(val) => (EbmlId::TrackJoinUid, val.index, val.id),
        }
    }

    /// Write this child's frame.
    #[verifier::rlimit(60)]
    #[verifier::spinoff_prover]
    pub fn write_el(&self, w: &mut Vec<u8>) -> (r: Result<usize, MatroskaError>)
        ensures
            r is Ok <==> el_ok(self.model()),
            r is Ok ==> final(w)@ == old(w)@ + el_bytes(self.model())
                && r->Ok_0 == el_bytes(self.model()).len(),
            r is Err ==> final(w)@ == old(w)@ && r->Err_0 is InvalidVarIntMoreThanVintMax,
    {
        match self {
            Self::TrackJoinUid(val) => crate::io::write_el_uint(w, 0xED, &*val.v),
        }
    }
}

impl EbmlField for TrackJoinBlocksFields {
    open spec fn model(&self) -> FieldModel {
        match self {
            Self::TrackJoinUid(e) => FieldModel::UInt { id: 0xED, idx: e.index, key: e.id, v: *e.v },
        }
    }

    fn sort_key(&self) -> (r: (Option<u64>, u64)) {
        match self {
            Self::TrackJoinUid(e) => (e.index, e.id),
        }
    }
}

/// The `ContentEncodings` structural element.
#[derive(Debug)]
pub struct ContentEncodings {
    pub size: u64,
    pub content_encoding: Vec<Ebml<ContentEncoding>>,
}

/// The models of the `content_encoding` children of a `ContentEncodings`.
pub open spec fn contentencodings_content_encoding_models(s: Seq<Ebml<ContentEncoding>>) -> Seq<FieldModel> {
    s.map_values(|e: Ebml<ContentEncoding>| FieldModel::Node { id: 0x6240, idx: e.index, key: e.id, children: (*e.v).model() })
}

impl ContentEncodings {
    /// The models of the children, in declaration order.
    #[verifier::opaque]
    pub open spec fn raw_model(self) -> Seq<FieldModel>
    {
        contentencodings_content_encoding_models(self.content_encoding@)
    }

    /// The children in emission order.
    #[verifier::opaque]
    pub open spec fn model(self) -> Seq<FieldModel>
    {
        sort_fields_spec(self.raw_model())
    }

    /// Append the `content_encoding` child values to a field run.
    #[verifier::loop_isolation(false)]
    fn push_content_encoding(&self, v: &mut Vec<ContentEncodingsFields>)
        ensures
            models_of::<ContentEncodingsFields>(final(v)@) == models_of::<ContentEncodingsFields>(old(v)@) + contentencodings_content_encoding_models(self.content_encoding@),
    {
        let ghost base = models_of::<ContentEncodingsFields>(v@);
        let mut i: usize = 0;
        while i < self.content_encoding.len()
            invariant
                i <= self.content_encoding@.len(),
                models_of::<ContentEncodingsFields>(v@) == base + contentencodings_content_encoding_models(self.content_encoding@.take(i as int)),
            decreases self.content_encoding@.len() - i,
        {
            let e = &self.content_encoding[i];
            let d = (&*e.v).duplicate();
            proof {
                reveal(ContentEncoding::model);
                assert(d.model() == (*e.v).model());
            }
            let ghost prevv = v@;
            v.push(ContentEncodingsFields::ContentEncoding(Ebml { index: e.index, v: Box::new(d), id: e.id }));
            proof {
                assert(self.content_encoding@.take(i + 1) =~= self.content_encoding@.take(i as int).push(self.content_encoding@[i as int]));
                assert(models_of::<ContentEncodingsFields>(v@) =~= models_of::<ContentEncodingsFields>(prevv).push(v@.last().model()));
                assert(contentencodings_content_encoding_models(self.content_encoding@.take(i + 1)) =~= contentencodings_content_encoding_models(self.content_encoding@.take(i as int)).push(v@.last().model()));
                assert(base + contentencodings_content_encoding_models(self.content_encoding@.take(i + 1)) =~= (base + contentencodings_content_encoding_models(self.content_encoding@.take(i as int))).push(v@.last().model()));
            }
            i += 1;
        }
        proof {
            assert(self.content_encoding@.take(self.content_encoding@.len() as int) =~= self.content_encoding@);
        }
    }

    /// The present children, each paired with its ID, in emission order.
    #[verifier::rlimit(100)]
    #[verifier::spinoff_prover]
    pub fn elements(&self) -> (r: Vec<ContentEncodingsFields>)
        ensures
            models_of::<ContentEncodingsFields>(r@) == self.model(),
    {
        let mut v: Vec<ContentEncodingsFields> = Vec::new();
        proof {
            assert(models_of::<ContentEncodingsFields>(v@) =~= Seq::<FieldModel>::empty());
        }
        self.push_content_encoding(&mut v);
        proof {
            reveal(ContentEncodings::raw_model);
            reveal(ContentEncodings::model);
            assert(Seq::<FieldModel>::empty() + contentencodings_content_encoding_models(self.content_encoding@) =~= contentencodings_content_encoding_models(self.content_encoding@));
            assert(models_of::<ContentEncodingsFields>(v@) == self.raw_model());
        }
        sort_fields(v)
    }

    /// A deep copy of the `content_encoding` slot.
    #[verifier::loop_isolation(false)]
    fn dup_content_encoding(&self) -> (r: Vec<Ebml<ContentEncoding>>)
        ensures
            contentencodings_content_encoding_models(r@) == contentencodings_content_encoding_models(self.content_encoding@),
    {
        let mut out: Vec<Ebml<ContentEncoding>> = Vec::new();
        let mut i: usize = 0;
        while i < self.content_encoding.len()
            invariant
                i <= self.content_encoding@.len(),
                contentencodings_content_encoding_models(out@) == contentencodings_content_encoding_models(self.content_encoding@.take(i as int)),
            decreases self.content_encoding@.len() - i,
        {
            let e = &self.content_encoding[i];
            let d = (&*e.v).duplicate();
            proof {
                reveal(ContentEncoding::model);
                assert(d.model() == (*e.v).model());
            }
            let ghost prevo = out@;
            out.push(Ebml { index: e.index, v: Box::new(d), id: e.id });
            proof {
                assert(self.content_encoding@.take(i + 1) =~= self.content_encoding@.take(i as int).push(self.content_encoding@[i as int]));
                assert(out@.drop_last() =~= prevo);
                assert(self.content_encoding@.take(i + 1).drop_last() =~= self.content_encoding@.take(i as int));
                assert(FieldModel::Node { id: 0x6240, idx: (out@.last()).index, key: (out@.last()).id, children: (*(out@.last()).v).model() } == FieldModel::Node { id: 0x6240, idx: (self.content_encoding@[i as int]).index, key: (self.content_encoding@[i as int]).id, children: (*(self.content_encoding@[i as int]).v).model() });
                assert(contentencodings_content_encoding_models(out@) =~= contentencodings_content_encoding_models(prevo).push(FieldModel::Node { id: 0x6240, idx: (out@.last()).index, key: (out@.last()).id, children: (*(out@.last()).v).model() }));
                assert(contentencodings_content_encoding_models(self.content_encoding@.take(i + 1)) =~= contentencodings_content_encoding_models(self.content_encoding@.take(i as int)).push(FieldModel::Node { id: 0x6240, idx: (self.content_encoding@[i as int]).index, key: (self.content_encoding@[i as int]).id, children: (*(self.content_encoding@[i as int]).v).model() }));
            }
            i += 1;
        }
        proof {
            assert(self.content_encoding@.take(self.content_encoding@.len() as int) =~= self.content_encoding@);
        }
        out
    }

    /// A deep copy with the same children, positions, and keys.
    #[verifier::rlimit(100)]
    #[verifier::spinoff_prover]
    pub fn duplicate(&self) -> (r: Self)
        ensures
            r.raw_model() == self.raw_model(),
            r.size == self.size,
    {
        let r = ContentEncodings {
            size: self.size,
            content_encoding: self.dup_content_encoding(),
        };
        proof {
            reveal(ContentEncodings::raw_model);
            assert(r.raw_model() == self.raw_model());
        }
        r
    }
}

impl ContentEncodings {
    /// Serialise the whole element: body to a scratch buffer first, then
    /// the header with the now-known length, then the body.
    pub fn write_blocking(&self, w: &mut Vec<u8>) -> (r: Result<usize, MatroskaError>)
        ensures
            r is Ok <==> body_ok_rec(self.model()) && cat_bytes(self.model()).len() < 0xFFFFFFFFFFFFFF,
            r is Ok ==> final(w)@ == old(w)@ + node_frame_bytes(0x6D80, cat_bytes(self.model()))
                && r->Ok_0 == node_frame_bytes(0x6D80, cat_bytes(self.model())).len(),
            r is Err ==> final(w)@ == old(w)@ && r->Err_0 is InvalidVarIntMoreThanVintMax,
    {
        let mut buf: Vec<u8> = Vec::new();
        match self.write_body_blocking(&mut buf) {
            Ok(_) => {},
            Err(e) => {
                return Err(e);
            },
        }
        let start = w.len();
        match crate::io::write_element_id_size(w, 0x6D80, buf.len() as u64) {
            Ok(_) => {},
            Err(e) => {
                return Err(e);
            },
        }
        w.append(&mut buf);
        Ok(w.len() - start)
    }

    /// Write this element's header with the given body size.
    pub fn write_header_blocking(&self, w: &mut Vec<u8>, size: u64) -> (r: Result<usize, MatroskaError>)
        ensures
            r is Ok <==> crate::io::size_encodable(size),
            r is Ok ==> final(w)@ == old(w)@ + crate::io::header_bytes(0x6D80, size)
                && r->Ok_0 == crate::io::header_bytes(0x6D80, size).len(),
            r is Err ==> final(w)@ == old(w)@ && r->Err_0 is InvalidVarIntMoreThanVintMax,
    {
        crate::io::write_element_id_size(w, 0x6D80, size)
    }

    /// Write the body: every present child, in emission order.
    #[verifier::loop_isolation(false)]
    #[verifier::rlimit(60)]
    #[verifier::spinoff_prover]
    pub fn write_body_blocking(&self, w: &mut Vec<u8>) -> (r: Result<usize, MatroskaError>)
        ensures
            r is Ok <==> body_ok_rec(self.model()),
            r is Ok ==> final(w)@ == old(w)@ + cat_bytes(self.model())
                && r->Ok_0 == cat_bytes(self.model()).len(),
            r is Err ==> r->Err_0 is InvalidVarIntMoreThanVintMax,
    {
        let fields = self.elements();
        let start = w.len();
        let ghost ms = self.model();
        let mut i: usize = 0;
        while i < fields.len()
            invariant
                i <= fields@.len(),
                models_of::<ContentEncodingsFields>(fields@) == ms,
                w@ == old(w)@ + cat_bytes(ms.take(i as int)),
                body_ok_rec(ms.take(i as int)),
            decreases fields@.len() - i,
        {
            proof {
                assert(models_of::<ContentEncodingsFields>(fields@)[i as int] == ms[i as int]);
            }
            match fields[i].write_el(w) {
                Ok(_) => {},
                Err(e) => {
                    proof {
                        lemma_body_ok_forall(ms);
                    }
                    return Err(e);
                },
            }
            proof {
                assert(ms.take(i + 1) =~= ms.take(i as int).push(ms[i as int]));
                lemma_cat_snoc(ms.take(i as int), ms[i as int]);
            }
            i += 1;
        }
        proof {
            assert(ms.take(ms.len() as int) =~= ms);
            lemma_body_ok_forall(ms);
        }
        Ok(w.len() - start)
    }
}

/// One present child of a `ContentEncodings`, paired with its value.
#[derive(Debug)]
pub enum ContentEncodingsFields {
    ContentEncoding(Ebml<ContentEncoding>),
}

impl ContentEncodingsFields {
    /// The child's element ID and its two ordering slots.
    #[verifier::rlimit(60)]
    #[verifier::spinoff_prover]
    pub fn index(&self) -> (r: (EbmlId, Option<u64>, u64))
        ensures
            r.0.spec_u64() == self.model().eid(),
            r.1 == self.model().idx(),
            r.2 == self.model().key(),
    {
        match self {
            Self::ContentEncoding(val) => (EbmlId::ContentEncoding, val.index, val.id),
        }
    }

    /// Write this child's frame.
    #[verifier::rlimit(60)]
    #[verifier::spinoff_prover]
    pub fn write_el(&self, w: &mut Vec<u8>) -> (r: Result<usize, MatroskaError>)
        ensures
            r is Ok <==> el_ok(self.model()),
            r is Ok ==> final(w)@ == old(w)@ + el_bytes(self.model())
                && r->Ok_0 == el_bytes(self.model()).len(),
            r is Err ==> final(w)@ == old(w)@ && r->Err_0 is InvalidVarIntMoreThanVintMax,
    {
        match self {
            Self::ContentEncoding(val) => (*val.v).write_blocking(w),
        }
    }
}

impl EbmlField for ContentEncodingsFields {
    open spec fn model(&self) -> FieldModel {
        match self {
            Self::ContentEncoding(e) => FieldModel::Node { id: 0x6240, idx: e.index, key: e.id, children: (*e.v).model() },
        }
    }

    fn sort_key(&self) -> (r: (Option<u64>, u64)) {
        match self {
            Self::ContentEncoding(e) => (e.index, e.id),
        }
    }
}

/// The `ContentEncoding` structural element.
#[derive(Debug)]
pub struct ContentEncoding {
    pub size: u64,
    pub content_encoding_order: Ebml<u64>,
    pub content_encoding_scope: Ebml<u64>,
    pub content_encoding_type: Ebml<u64>,
    pub content_compression: Option<Ebml<ContentCompression>>,
    pub content_encryption: Option<Ebml<ContentEncryption>>,
}

impl ContentEncoding {
    /// The models of the children, in declaration order.
    #[verifier::opaque]
    pub open spec fn raw_model(self) -> Seq<FieldModel>
    {
        seq![FieldModel::UInt { id: 0x5031, idx: self.content_encoding_order.index, key: self.content_encoding_order.id, v: *self.content_encoding_order.v }]
            + seq![FieldModel::UInt { id: 0x5032, idx: self.content_encoding_scope.index, key: self.content_encoding_scope.id, v: *self.content_encoding_scope.v }]
            + seq![FieldModel::UInt { id: 0x5033, idx: self.content_encoding_type.index, key: self.content_encoding_type.id, v: *self.content_encoding_type.v }]
            + (match self.content_compression { Some(e) => seq![FieldModel::Node { id: 0x5034, idx: e.index, key: e.id, children: (*e.v).model() }], None => Seq::empty() })
            + (match self.content_encryption { Some(e) => seq![FieldModel::Node { id: 0x5035, idx: e.index, key: e.id, children: (*e.v).model() }], None => Seq::empty() })
    }

    /// The children in emission order.
    #[verifier::opaque]
    pub open spec fn model(self) -> Seq<FieldModel>
    {
        sort_fields_spec(self.raw_model())
    }

    /// Append the `content_encoding_order` child values to a field run.
    #[verifier::loop_isolation(false)]
    fn push_content_encoding_order(&self, v: &mut Vec<ContentEncodingFields>)
        ensures
            models_of::<ContentEncodingFields>(final(v)@) == models_of::<ContentEncodingFields>(old(v)@) + seq![FieldModel::UInt { id: 0x5031, idx: self.content_encoding_order.index, key: self.content_encoding_order.id, v: *self.content_encoding_order.v }],
    {
        let ghost prevv = v@;
        v.push(ContentEncodingFields::ContentEncodingOrder(crate::dup_ebml_copy(&self.content_encoding_order)));
        proof {
            assert(models_of::<ContentEncodingFields>(v@) =~= models_of::<ContentEncodingFields>(prevv).push(v@.last().model()));
            assert(models_of::<ContentEncodingFields>(prevv).push(v@.last().model()) =~= models_of::<ContentEncodingFields>(prevv) + seq![FieldModel::UInt { id: 0x5031, idx: self.content_encoding_order.index, key: self.content_encoding_order.id, v: *self.content_encoding_order.v }]);
        }
    }

    /// Append the `content_encoding_scope` child values to a field run.
    #[verifier::loop_isolation(false)]
    fn push_content_encoding_scope(&self, v: &mut Vec<ContentEncodingFields>)
        ensures
            models_of::<ContentEncodingFields>(final(v)@) == models_of::<ContentEncodingFields>(old(v)@) + seq![FieldModel::UInt { id: 0x5032, idx: self.content_encoding_scope.index, key: self.content_encoding_scope.id, v: *self.content_encoding_scope.v }],
    {
        let ghost prevv = v@;
        v.push(ContentEncodingFields::ContentEncodingScope(crate::dup_ebml_copy(&self.content_encoding_scope)));
        proof {
            assert(models_of::<ContentEncodingFields>(v@) =~= models_of::<ContentEncodingFields>(prevv).push(v@.last().model()));
            assert(models_of::<ContentEncodingFields>(prevv).push(v@.last().model()) =~= models_of::<ContentEncodingFields>(prevv) + seq![FieldModel::UInt { id: 0x5032, idx: self.content_encoding_scope.index, key: self.content_encoding_scope.id, v: *self.content_encoding_scope.v }]);
        }
    }

    /// Append the `content_encoding_type` child values to a field run.
    #[verifier::loop_isolation(false)]
    fn push_content_encoding_type(&self, v: &mut Vec<ContentEncodingFields>)
        ensures
            models_of::<ContentEncodingFields>(final(v)@) == models_of::<ContentEncodingFields>(old(v)@) + seq![FieldModel::UInt { id: 0x5033, idx: self.content_encoding_type.index, key: self.content_encoding_type.id, v: *self.content_encoding_type.v }],
    {
        let ghost prevv = v@;
        v.push(ContentEncodingFields::ContentEncodingType(crate::dup_ebml_copy(&self.content_encoding_type)));
        proof {
            assert(models_of::<ContentEncodingFields>(v@) =~= models_of::<ContentEncodingFields>(prevv).push(v@.last().model()));
            assert(models_of::<ContentEncodingFields>(prevv).push(v@.last().model()) =~= models_of::<ContentEncodingFields>(prevv) + seq![FieldModel::UInt { id: 0x5033, idx: self.content_encoding_type.index, key: self.content_encoding_type.id, v: *self.content_encoding_type.v }]);
        }
    }

    /// Append the `content_compression` child values to a field run.
    #[verifier::loop_isolation(false)]
    fn push_content_compression(&self, v: &mut Vec<ContentEncodingFields>)
        ensures
            models_of::<ContentEncodingFields>(final(v)@) == models_of::<ContentEncodingFields>(old(v)@) + (match &self.content_compression { Some(e) => seq![FieldModel::Node { id: 0x5034, idx: e.index, key: e.id, children: (*e.v).model() }], None => Seq::empty() }),
    {
        match &self.content_compression {
            Some(e) => {
                let d = (&*e.v).duplicate();
                proof {
                    reveal(ContentCompression::model);
                    assert(d.model() == (*e.v).model());
                }
                let ghost prevv = v@;
                v.push(ContentEncodingFields::ContentCompression(Ebml { index: e.index, v: Box::new(d), id: e.id }));
                proof {
                    assert(models_of::<ContentEncodingFields>(v@) =~= models_of::<ContentEncodingFields>(prevv).push(v@.last().model()));
                    assert(models_of::<ContentEncodingFields>(prevv).push(v@.last().model()) =~= models_of::<ContentEncodingFields>(prevv) + (match &self.content_compression { Some(e) => seq![FieldModel::Node { id: 0x5034, idx: e.index, key: e.id, children: (*e.v).model() }], None => Seq::empty() }));
                }
            },
            None => {
                proof {
                    assert(models_of::<ContentEncodingFields>(v@) =~= models_of::<ContentEncodingFields>(v@) + (match &self.content_compression { Some(e) => seq![FieldModel::Node { id: 0x5034, idx: e.index, key: e.id, children: (*e.v).model() }], None => Seq::empty() }));
                }
            },
        }
    }

    /// Append the `content_encryption` child values to a field run.
    #[verifier::loop_isolation(false)]
    fn push_content_encryption(&self, v: &mut Vec<ContentEncodingFields>)
        ensures
            models_of::<ContentEncodingFields>(final(v)@) == models_of::<ContentEncodingFields>(old(v)@) + (match &self.content_encryption { Some(e) => seq![FieldModel::Node { id: 0x5035, idx: e.index, key: e.id, children: (*e.v).model() }], None => Seq::empty() }),
    {
        match &self.content_encryption {
            Some(e) => {
                let d = (&*e.v).duplicate();
                proof {
                    reveal(ContentEncryption::model);
                    assert(d.model() == (*e.v).model());
                }
                let ghost prevv = v@;
                v.push(ContentEncodingFields::ContentEncryption(Ebml { index: e.index, v: Box::new(d), id: e.id }));
                proof {
                    assert(models_of::<ContentEncodingFields>(v@) =~= models_of::<ContentEncodingFields>(prevv).push(v@.last().model()));
                    assert(models_of::<ContentEncodingFields>(prevv).push(v@.last().model()) =~= models_of::<ContentEncodingFields>(prevv) + (match &self.content_encryption { Some(e) => seq![FieldModel::Node { id: 0x5035, idx: e.index, key: e.id, children: (*e.v).model() }], None => Seq::empty() }));
                }
            },
            None => {
                proof {
                    assert(models_of::<ContentEncodingFields>(v@) =~= models_of::<ContentEncodingFields>(v@) + (match &self.content_encryption { Some(e) => seq![FieldModel::Node { id: 0x5035, idx: e.index, key: e.id, children: (*e.v).model() }], None => Seq::empty() }));
                }
            },
        }
    }

    /// The present children, each paired with its ID, in emission order.
    #[verifier::rlimit(100)]
    #[verifier::spinoff_prover]
    pub fn elements(&self) -> (r: Vec<ContentEncodingFields>)
        ensures
            models_of::<ContentEncodingFields>(r@) == self.model(),
    {
        let mut v: Vec<ContentEncodingFields> = Vec::new();
        proof {
            assert(models_of::<ContentEncodingFields>(v@) =~= Seq::<FieldModel>::empty());
        }
        self.push_content_encoding_order(&mut v);
        self.push_content_encoding_scope(&mut v);
        self.push_content_encoding_type(&mut v);
        self.push_content_compression(&mut v);
        self.push_content_encryption(&mut v);
        proof {
            reveal(ContentEncoding::raw_model);
            reveal(ContentEncoding::model);
            assert(Seq::<FieldModel>::empty() + seq![FieldModel::UInt { id: 0x5031, idx: self.content_encoding_order.index, key: self.content_encoding_order.id, v: *self.content_encoding_order.v }] =~= seq![FieldModel::UInt { id: 0x5031, idx: self.content_encoding_order.index, key: self.content_encoding_order.id, v: *self.content_encoding_order.v }]);
            assert(models_of::<ContentEncodingFields>(v@) == self.raw_model());
        }
        sort_fields(v)
    }

    /// A deep copy of the `content_encoding_order` slot.
    #[verifier::loop_isolation(false)]
    fn dup_content_encoding_order(&self) -> (r: Ebml<u64>)
        ensures
            seq![FieldModel::UInt { id: 0x5031, idx: r.index, key: r.id, v: *r.v }] == seq![FieldModel::UInt { id: 0x5031, idx: self.content_encoding_order.index, key: self.content_encoding_order.id, v: *self.content_encoding_order.v }],
    {
        crate::dup_ebml_copy(&self.content_encoding_order)
    }

    /// A deep copy of the `content_encoding_scope` slot.
    #[verifier::loop_isolation(false)]
    fn dup_content_encoding_scope(&self) -> (r: Ebml<u64>)
        ensures
            seq![FieldModel::UInt { id: 0x5032, idx: r.index, key: r.id, v: *r.v }] == seq![FieldModel::UInt { id: 0x5032, idx: self.content_encoding_scope.index, key: self.content_encoding_scope.id, v: *self.content_encoding_scope.v }],
    {
        crate::dup_ebml_copy(&self.content_encoding_scope)
    }

    /// A deep copy of the `content_encoding_type` slot.
    #[verifier::loop_isolation(false)]
    fn dup_content_encoding_type(&self) -> (r: Ebml<u64>)
        ensures
            seq![FieldModel::UInt { id: 0x5033, idx: r.index, key: r.id, v: *r.v }] == seq![FieldModel::UInt { id: 0x5033, idx: self.content_encoding_type.index, key: self.content_encoding_type.id, v: *self.content_encoding_type.v }],
    {
        crate::dup_ebml_copy(&self.content_encoding_type)
    }

    /// A deep copy of the `content_compression` slot.
    #[verifier::loop_isolation(false)]
    fn dup_content_compression(&self) -> (r: Option<Ebml<ContentCompression>>)
        ensures
            (match &r { Some(e) => seq![FieldModel::Node { id: 0x5034, idx: e.index, key: e.id, children: (*e.v).model() }], None => Seq::empty() }) == (match &self.content_compression { Some(e) => seq![FieldModel::Node { id: 0x5034, idx: e.index, key: e.id, children: (*e.v).model() }], None => Seq::empty() }),
    {
        match &self.content_compression {
            Some(e) => {
                let d = (&*e.v).duplicate();
                proof {
                    reveal(ContentCompression::model);
                    assert(d.model() == (*e.v).model());
                }
                Some(Ebml { index: e.index, v: Box::new(d), id: e.id })
            },
            None => None,
        }
    }

    /// A deep copy of the `content_encryption` slot.
    #[verifier::loop_isolation(false)]
    fn dup_content_encryption(&self) -> (r: Option<Ebml<ContentEncryption>>)
        ensures
            (match &r { Some(e) => seq![FieldModel::Node { id: 0x5035, idx: e.index, key: e.id, children: (*e.v).model() }], None => Seq::empty() }) == (match &self.content_encryption { Some(e) => seq![FieldModel::Node { id: 0x5035, idx: e.index, key: e.id, children: (*e.v).model() }], None => Seq::empty() }),
    {
        match &self.content_encryption {
            Some(e) => {
                let d = (&*e.v).duplicate();
                proof {
                    reveal(ContentEncryption::model);
                    assert(d.model() == (*e.v).model());
                }
                Some(Ebml { index: e.index, v: Box::new(d), id: e.id })
            },
            None => None,
        }
    }

    /// A deep copy with the same children, positions, and keys.
    #[verifier::rlimit(100)]
    #[verifier::spinoff_prover]
    pub fn duplicate(&self) -> (r: Self)
        ensures
            r.raw_model() == self.raw_model(),
            r.size == self.size,
    {
        let r = ContentEncoding {
            size: self.size,
            content_encoding_order: self.dup_content_encoding_order(),
            content_encoding_scope: self.dup_content_encoding_scope(),
            content_encoding_type: self.dup_content_encoding_type(),
            content_compression: self.dup_content_compression(),
            content_encryption: self.dup_content_encryption(),
        };
        proof {
            reveal(ContentEncoding::raw_model);
            assert(r.raw_model() == self.raw_model());
        }
        r
    }
}

impl ContentEncoding {
    /// Serialise the whole element: body to a scratch buffer first, then
    /// the header with the now-known length, then the body.
    pub fn write_blocking(&self, w: &mut Vec<u8>) -> (r: Result<usize, MatroskaError>)
        ensures
            r is Ok <==> body_ok_rec(self.model()) && cat_bytes(self.model()).len() < 0xFFFFFFFFFFFFFF,
            r is Ok ==> final(w)@ == old(w)@ + node_frame_bytes(0x6240, cat_bytes(self.model()))
                && r->Ok_0 == node_frame_bytes(0x6240, cat_bytes(self.model())).len(),
            r is Err ==> final(w)@ == old(w)@ && r->Err_0 is InvalidVarIntMoreThanVintMax,
    {
        let mut buf: Vec<u8> = Vec::new();
        match self.write_body_blocking(&mut buf) {
            Ok(_) => {},
            Err(e) => {
                return Err(e);
            },
        }
        let start = w.len();
        match crate::io::write_element_id_size(w, 0x6240, buf.len() as u64) {
            Ok(_) => {},
            Err(e) => {
                return Err(e);
            },
        }
        w.append(&mut buf);
        Ok(w.len() - start)
    }

    /// Write this element's header with the given body size.
    pub fn write_header_blocking(&self, w: &mut Vec<u8>, size: u64) -> (r: Result<usize, MatroskaError>)
        ensures
            r is Ok <==> crate::io::size_encodable(size),
            r is Ok ==> final(w)@ == old(w)@ + crate::io::header_bytes(0x6240, size)
                && r->Ok_0 == crate::io::header_bytes(0x6240, size).len(),
            r is Err ==> final(w)@ == old(w)@ && r->Err_0 is InvalidVarIntMoreThanVintMax,
    {
        crate::io::write_element_id_size(w, 0x6240, size)
    }

    /// Write the body: every present child, in emission order.
    #[verifier::loop_isolation(false)]
    #[verifier::rlimit(60)]
    #[verifier::spinoff_prover]
    pub fn write_body_blocking(&self, w: &mut Vec<u8>) -> (r: Result<usize, MatroskaError>)
        ensures
            r is Ok <==> body_ok_rec(self.model()),
            r is Ok ==> final(w)@ == old(w)@ + cat_bytes(self.model())
                && r->Ok_0 == cat_bytes(self.model()).len(),
            r is Err ==> r->Err_0 is InvalidVarIntMoreThanVintMax,
    {
        let fields = self.elements();
        let start = w.len();
        let ghost ms = self.model();
        let mut i: usize = 0;
        while i < fields.len()
            invariant
                i <= fields@.len(),
                models_of::<ContentEncodingFields>(fields@) == ms,
                w@ == old(w)@ + cat_bytes(ms.take(i as int)),
                body_ok_rec(ms.take(i as int)),
            decreases fields@.len() - i,
        {
            proof {
                assert(models_of::<ContentEncodingFields>(fields@)[i as int] == ms[i as int]);
            }
            match fields[i].write_el(w) {
                Ok(_) => {},
                Err(e) => {
                    proof {
                        lemma_body_ok_forall(ms);
                    }
                    return Err(e);
                },
            }
            proof {
                assert(ms.take(i + 1) =~= ms.take(i as int).push(ms[i as int]));
                lemma_cat_snoc(ms.take(i as int), ms[i as int]);
            }
            i += 1;
        }
        proof {
            assert(ms.take(ms.len() as int) =~= ms);
            lemma_body_ok_forall(ms);
        }
        Ok(w.len() - start)
    }
}

/// One present child of a `ContentEncoding`, paired with its value.
#[derive(Debug)]
pub enum ContentEncodingFields {
    ContentEncodingOrder(Ebml<u64>),
    ContentEncodingScope(Ebml<u64>),
    ContentEncodingType(Ebml<u64>),
    ContentCompression(Ebml<ContentCompression>),
    ContentEncryption(Ebml<ContentEncryption>),
}

impl ContentEncodingFields {
    /// The child's element ID and its two ordering slots.
    #[verifier::rlimit(60)]
    #[verifier::spinoff_prover]
    pub fn index(&self) -> (r: (EbmlId, Option<u64>, u64))
        ensures
            r.0.spec_u64() == self.model().eid(),
            r.1 == self.model().idx(),
            r.2 == self.model().key(),
    {
        match self {
            Self::ContentEncodingOrder(val) => (EbmlId::ContentEncodingOrder, val.index, val.id),
            Self::ContentEncodingScope(val) => (EbmlId::ContentEncodingScope, val.index, val.id),
            Self::ContentEncodingType(val) => (EbmlId::ContentEncodingType, val.index, val.id),
            Self::ContentCompression(val) => (EbmlId::ContentCompression, val.index, val.id),
            Self::ContentEncryption(val) => (EbmlId::ContentEncryption, val.index, val.id),
        }
    }

    /// Write this child's frame.
    #[verifier::rlimit(60)]
    #[verifier::spinoff_prover]
    pub fn write_el(&self, w: &mut Vec<u8>) -> (r: Result<usize, MatroskaError>)
        ensures
            r is Ok <==> el_ok(self.model()),
            r is Ok ==> final(w)@ == old(w)@ + el_bytes(self.model())
                && r->Ok_0 == el_bytes(self.model()).len(),
            r is Err ==> final(w)@ == old(w)@ && r->Err_0 is InvalidVarIntMoreThanVintMax,
    {
        match self {
            Self::ContentEncodingOrder(val) => crate::io::write_el_uint(w, 0x5031, &*val.v),
            Self::ContentEncodingScope(val) => crate::io::write_el_uint(w, 0x5032, &*val.v),
            Self::ContentEncodingType(val) => crate::io::write_el_uint(w, 0x5033, &*val.v),
            Self::ContentCompression(val) => (*val.v).write_blocking(w),
            Self::ContentEncryption(val) => (*val.v).write_blocking(w),
        }
    }
}

impl EbmlField for ContentEncodingFields {
    open spec fn model(&self) -> FieldModel {
        match self {
            Self::ContentEncodingOrder(e) => FieldModel::UInt { id: 0x5031, idx: e.index, key: e.id, v: *e.v },
            Self::ContentEncodingScope(e) => FieldModel::UInt { id: 0x5032, idx: e.index, key: e.id, v: *e.v },
            Self::ContentEncodingType(e) => FieldModel::UInt { id: 0x5033, idx: e.index, key: e.id, v: *e.v },
            Self::ContentCompression(e) => FieldModel::Node { id: 0x5034, idx: e.index, key: e.id, children: (*e.v).model() },
            Self::ContentEncryption(e) => FieldModel::Node { id: 0x5035, idx: e.index, key: e.id, children: (*e.v).model() },
        }
    }

    fn sort_key(&self) -> (r: (Option<u64>, u64)) {
        match self {
            Self::ContentEncodingOrder(e) => (e.index, e.id),
            Self::ContentEncodingScope(e) => (e.index, e.id),
            Self::ContentEncodingType(e) => (e.index, e.id),
            Self::ContentCompression(e) => (e.index, e.id),
            Self::ContentEncryption(e) => (e.index, e.id),
        }
    }
}

/// The `ContentCompression` structural element.
#[derive(Debug)]
pub struct ContentCompression {
    pub size: u64,
    pub content_comp_algo: Ebml<u64>,
    pub content_comp_settings: Option<Ebml<Vec<u8>>>,
}

impl ContentCompression {
    /// The models of the children, in declaration order.
    #[verifier::opaque]
    pub open spec fn raw_model(self) -> Seq<FieldModel>
    {
        seq![FieldModel::UInt { id: 0x4254, idx: self.content_comp_algo.index, key: self.content_comp_algo.id, v: *self.content_comp_algo.v }]
            + (match self.content_comp_settings { Some(e) => seq![FieldModel::Bin { id: 0x4255, idx: e.index, key: e.id, b: (*e.v)@ }], None => Seq::empty() })
    }

    /// The children in emission order.
    #[verifier::opaque]
    pub open spec fn model(self) -> Seq<FieldModel>
    {
        sort_fields_spec(self.raw_model())
    }

    /// Append the `content_comp_algo` child values to a field run.
    #[verifier::loop_isolation(false)]
    fn push_content_comp_algo(&self, v: &mut Vec<ContentCompressionFields>)
        ensures
            models_of::<ContentCompressionFields>(final(v)@) == models_of::<ContentCompressionFields>(old(v)@) + seq![FieldModel::UInt { id: 0x4254, idx: self.content_comp_algo.index, key: self.content_comp_algo.id, v: *self.content_comp_algo.v }],
    {
        let ghost prevv = v@;
        v.push(ContentCompressionFields::ContentCompAlgo(crate::dup_ebml_copy(&self.content_comp_algo)));
        proof {
            assert(models_of::<ContentCompressionFields>(v@) =~= models_of::<ContentCompressionFields>(prevv).push(v@.last().model()));
            assert(models_of::<ContentCompressionFields>(prevv).push(v@.last().model()) =~= models_of::<ContentCompressionFields>(prevv) + seq![FieldModel::UInt { id: 0x4254, idx: self.content_comp_algo.index, key: self.content_comp_algo.id, v: *self.content_comp_algo.v }]);
        }
    }

    /// Append the `content_comp_settings` child values to a field run.
    #[verifier::loop_isolation(false)]
    fn push_content_comp_settings(&self, v: &mut Vec<ContentCompressionFields>)
        ensures
            models_of::<ContentCompressionFields>(final(v)@) == models_of::<ContentCompressionFields>(old(v)@) + (match &self.content_comp_settings { Some(e) => seq![FieldModel::Bin { id: 0x4255, idx: e.index, key: e.id, b: (*e.v)@ }], None => Seq::empty() }),
    {
        match &self.content_comp_settings {
            Some(e) => {
                let ghost prevv = v@;
                v.push(ContentCompressionFields::ContentCompSettings(crate::dup_ebml_bytes(e)));
                proof {
                    assert(models_of::<ContentCompressionFields>(v@) =~= models_of::<ContentCompressionFields>(prevv).push(v@.last().model()));
                    assert(models_of::<ContentCompressionFields>(prevv).push(v@.last().model()) =~= models_of::<ContentCompressionFields>(prevv) + (match &self.content_comp_settings { Some(e) => seq![FieldModel::Bin { id: 0x4255, idx: e.index, key: e.id, b: (*e.v)@ }], None => Seq::empty() }));
                }
            },
            None => {
                proof {
                    assert(models_of::<ContentCompressionFields>(v@) =~= models_of::<ContentCompressionFields>(v@) + (match &self.content_comp_settings { Some(e) => seq![FieldModel::Bin { id: 0x4255, idx: e.index, key: e.id, b: (*e.v)@ }], None => Seq::empty() }));
                }
            },
        }
    }

    /// The present children, each paired with its ID, in emission order.
    #[verifier::rlimit(100)]
    #[verifier::spinoff_prover]
    pub fn elements(&self) -> (r: Vec<ContentCompressionFields>)
        ensures
            models_of::<ContentCompressionFields>(r@) == self.model(),
    {
        let mut v: Vec<ContentCompressionFields> = Vec::new();
        proof {
            assert(models_of::<ContentCompressionFields>(v@) =~= Seq::<FieldModel>::empty());
        }
        self.push_content_comp_algo(&mut v);
        self.push_content_comp_settings(&mut v);
        proof {
            reveal(ContentCompression::raw_model);
            reveal(ContentCompression::model);
            assert(Seq::<FieldModel>::empty() + seq![FieldModel::UInt { id: 0x4254, idx: self.content_comp_algo.index, key: self.content_comp_algo.id, v: *self.content_comp_algo.v }] =~= seq![FieldModel::UInt { id: 0x4254, idx: self.content_comp_algo.index, key: self.content_comp_algo.id, v: *self.content_comp_algo.v }]);
            assert(models_of::<ContentCompressionFields>(v@) == self.raw_model());
        }
        sort_fields(v)
    }

    /// A deep copy of the `content_comp_algo` slot.
    #[verifier::loop_isolation(false)]
    fn dup_content_comp_algo(&self) -> (r: Ebml<u64>)
        ensures
            seq![FieldModel::UInt { id: 0x4254, idx: r.index, key: r.id, v: *r.v }] == seq![FieldModel::UInt { id: 0x4254, idx: self.content_comp_algo.index, key: self.content_comp_algo.id, v: *self.content_comp_algo.v }],
    {
        crate::dup_ebml_copy(&self.content_comp_algo)
    }

    /// A deep copy of the `content_comp_settings` slot.
    #[verifier::loop_isolation(false)]
    fn dup_content_comp_settings(&self) -> (r: Option<Ebml<Vec<u8>>>)
        ensures
            (match &r { Some(e) => seq![FieldModel::Bin { id: 0x4255, idx: e.index, key: e.id, b: (*e.v)@ }], None => Seq::empty() }) == (match &self.content_comp_settings { Some(e) => seq![FieldModel::Bin { id: 0x4255, idx: e.index, key: e.id, b: (*e.v)@ }], None => Seq::empty() }),
    {
        match &self.content_comp_settings {
            Some(e) => Some(crate::dup_ebml_bytes(e)),
            None => None,
        }
    }

    /// A deep copy with the same children, positions, and keys.
    #[verifier::rlimit(100)]
    #[verifier::spinoff_prover]
    pub fn duplicate(&self) -> (r: Self)
        ensures
            r.raw_model() == self.raw_model(),
            r.size == self.size,
    {
        let r = ContentCompression {
            size: self.size,
            content_comp_algo: self.dup_content_comp_algo(),
            content_comp_settings: self.dup_content_comp_settings(),
        };
        proof {
            reveal(ContentCompression::raw_model);
            assert(r.raw_model() == self.raw_model());
        }
        r
    }
}

impl ContentCompression {
    /// Serialise the whole element: body to a scratch buffer first, then
    /// the header with the now-known length, then the body.
    pub fn write_blocking(&self, w: &mut Vec<u8>) -> (r: Result<usize, MatroskaError>)
        ensures
            r is Ok <==> body_ok_rec(self.model()) && cat_bytes(self.model()).len() < 0xFFFFFFFFFFFFFF,
            r is Ok ==> final(w)@ == old(w)@ + node_frame_bytes(0x5034, cat_bytes(self.model()))
                && r->Ok_0 == node_frame_bytes(0x5034, cat_bytes(self.model())).len(),
            r is Err ==> final(w)@ == old(w)@ && r->Err_0 is InvalidVarIntMoreThanVintMax,
    {
        let mut buf: Vec<u8> = Vec::new();
        match self.write_body_blocking(&mut buf) {
            Ok(_) => {},
            Err(e) => {
                return Err(e);
            },
        }
        let start = w.len();
        match crate::io::write_element_id_size(w, 0x5034, buf.len() as u64) {
            Ok(_) => {},
            Err(e) => {
                return Err(e);
            },
        }
        w.append(&mut buf);
        Ok(w.len() - start)
    }

    /// Write this element's header with the given body size.
    pub fn write_header_blocking(&self, w: &mut Vec<u8>, size: u64) -> (r: Result<usize, MatroskaError>)
        ensures
            r is Ok <==> crate::io::size_encodable(size),
            r is Ok ==> final(w)@ == old(w)@ + crate::io::header_bytes(0x5034, size)
                && r->Ok_0 == crate::io::header_bytes(0x5034, size).len(),
            r is Err ==> final(w)@ == old(w)@ && r->Err_0 is InvalidVarIntMoreThanVintMax,
    {
        crate::io::write_element_id_size(w, 0x5034, size)
    }

    /// Write the body: every present child, in emission order.
    #[verifier::loop_isolation(false)]
    #[verifier::rlimit(60)]
    #[verifier::spinoff_prover]
    pub fn write_body_blocking(&self, w: &mut Vec<u8>) -> (r: Result<usize, MatroskaError>)
        ensures
            r is Ok <==> body_ok_rec(self.model()),
            r is Ok ==> final(w)@ == old(w)@ + cat_bytes(self.model())
                && r->Ok_0 == cat_bytes(self.model()).len(),
            r is Err ==> r->Err_0 is InvalidVarIntMoreThanVintMax,
    {
        let fields = self.elements();
        let start = w.len();
        let ghost ms = self.model();
        let mut i: usize = 0;
        while i < fields.len()
            invariant
                i <= fields@.len(),
                models_of::<ContentCompressionFields>(fields@) == ms,
                w@ == old(w)@ + cat_bytes(ms.take(i as int)),
                body_ok_rec(ms.take(i as int)),
            decreases fields@.len() - i,
        {
            proof {
                assert(models_of::<ContentCompressionFields>(fields@)[i as int] == ms[i as int]);
            }
            match fields[i].write_el(w) {
                Ok(_) => {},
                Err(e) => {
                    proof {
                        lemma_body_ok_forall(ms);
                    }
                    return Err(e);
                },
            }
            proof {
                assert(ms.take(i + 1) =~= ms.take(i as int).push(ms[i as int]));
                lemma_cat_snoc(ms.take(i as int), ms[i as int]);
            }
            i += 1;
        }
        proof {
            assert(ms.take(ms.len() as int) =~= ms);
            lemma_body_ok_forall(ms);
        }
        Ok(w.len() - start)
    }
}

/// One present child of a `ContentCompression`, paired with its value.
#[derive(Debug)]
pub enum ContentCompressionFields {
    ContentCompAlgo(Ebml<u64>),
    ContentCompSettings(Ebml<Vec<u8>>),
}

impl ContentCompressionFields {
    /// The child's element ID and its two ordering slots.
    #[verifier::rlimit(60)]
    #[verifier::spinoff_prover]
    pub fn index(&self) -> (r: (EbmlId, Option<u64>, u64))
        ensures
            r.0.spec_u64() == self.model().eid(),
            r.1 == self.model().idx(),
            r.2 == self.model().key(),
    {
        match self {
            Self::ContentCompAlgo(val) => (EbmlId::ContentCompAlgo, val.index, val.id),
            Self::ContentCompSettings(val) => (EbmlId::ContentCompSettings, val.index, val.id),
        }
    }

    /// Write this child's frame.
    #[verifier::rlimit(60)]
    #[verifier::spinoff_prover]
    pub fn write_el(&self, w: &mut Vec<u8>) -> (r: Result<usize, MatroskaError>)
        ensures
            r is Ok <==> el_ok(self.model()),
            r is Ok ==> final(w)@ == old(w)@ + el_bytes(self.model())
                && r->Ok_0 == el_bytes(self.model()).len(),
            r is Err ==> final(w)@ == old(w)@ && r->Err_0 is InvalidVarIntMoreThanVintMax,
    {
        match self {
            Self::ContentCompAlgo(val) => crate::io::write_el_uint(w, 0x4254, &*val.v),
            Self::ContentCompSettings(val) => crate::io::write_el_bin(w, 0x4255, (*val.v).as_slice()),
        }
    }
}

impl EbmlField for ContentCompressionFields {
    open spec fn model(&self) -> FieldModel {
        match self {
            Self::ContentCompAlgo(e) => FieldModel::UInt { id: 0x4254, idx: e.index, key: e.id, v: *e.v },
            Self::ContentCompSettings(e) => FieldModel::Bin { id: 0x4255, idx: e.index, key: e.id, b: (*e.v)@ },
        }
    }

    fn sort_key(&self) -> (r: (Option<u64>, u64)) {
        match self {
            Self::ContentCompAlgo(e) => (e.index, e.id),
            Self::ContentCompSettings(e) => (e.index, e.id),
        }
    }
}

/// The `ContentEncryption` structural element.
#[derive(Debug)]
pub struct ContentEncryption {
    pub size: u64,
    pub content_enc_algo: Ebml<u64>,
    pub content_enc_key_id: Option<Ebml<Vec<u8>>>,
    pub content_enc_aes_settings: Option<Ebml<ContentEncAesSettings>>,
    pub content_signature: Option<Ebml<Vec<u8>>>,
    pub content_sig_key_id: Option<Ebml<Vec<u8>>>,
    pub content_sig_algo: Option<Ebml<u64>>,
    pub content_sig_hash_algo: Option<Ebml<u64>>,
}

impl ContentEncryption {
    /// The models of the children, in declaration order.
    #[verifier::opaque]
    pub open spec fn raw_model(self) -> Seq<FieldModel>
    {
        seq![FieldModel::UInt { id: 0x47E1, idx: self.content_enc_algo.index, key: self.content_enc_algo.id, v: *self.content_enc_algo.v }]
            + (match self.content_enc_key_id { Some(e) => seq![FieldModel::Bin { id: 0x47E2, idx: e.index, key: e.id, b: (*e.v)@ }], None => Seq::empty() })
            + (match self.content_enc_aes_settings { Some(e) => seq![FieldModel::Node { id: 0x47E7, idx: e.index, key: e.id, children: (*e.v).model() }], None => Seq::empty() })
            + (match self.content_signature { Some(e) => seq![FieldModel::Bin { id: 0x47E3, idx: e.index, key: e.id, b: (*e.v)@ }], None => Seq::empty() })
            + (match self.content_sig_key_id { Some(e) => seq![FieldModel::Bin { id: 0x47E4, idx: e.index, key: e.id, b: (*e.v)@ }], None => Seq::empty() })
            + (match self.content_sig_algo { Some(e) => seq![FieldModel::UInt { id: 0x47E5, idx: e.index, key: e.id, v: *e.v }], None => Seq::empty() })
            + (match self.content_sig_hash_algo { Some(e) => seq![FieldModel::UInt { id: 0x47E6, idx: e.index, key: e.id, v: *e.v }], None => Seq::empty() })
    }

    /// The children in emission order.
    #[verifier::opaque]
    pub open spec fn model(self) -> Seq<FieldModel>
    {
        sort_fields_spec(self.raw_model())
    }

    /// Append the `content_enc_algo` child values to a field run.
    #[verifier::loop_isolation(false)]
    fn push_content_enc_algo(&self, v: &mut Vec<ContentEncryptionFields>)
        ensures
            models_of::<ContentEncryptionFields>(final(v)@) == models_of::<ContentEncryptionFields>(old(v)@) + seq![FieldModel::UInt { id: 0x47E1, idx: self.content_enc_algo.index, key: self.content_enc_algo.id, v: *self.content_enc_algo.v }],
    {
        let ghost prevv = v@;
        v.push(ContentEncryptionFields::ContentEncAlgo(crate::dup_ebml_copy(&self.content_enc_algo)));
        proof {
            assert(models_of::<ContentEncryptionFields>(v@) =~= models_of::<ContentEncryptionFields>(prevv).push(v@.last().model()));
            assert(models_of::<ContentEncryptionFields>(prevv).push(v@.last().model()) =~= models_of::<ContentEncryptionFields>(prevv) + seq![FieldModel::UInt { id: 0x47E1, idx: self.content_enc_algo.index, key: self.content_enc_algo.id, v: *self.content_enc_algo.v }]);
        }
    }

    /// Append the `content_enc_key_id` child values to a field run.
    #[verifier::loop_isolation(false)]
    fn push_content_enc_key_id(&self, v: &mut Vec<ContentEncryptionFields>)
        ensures
            models_of::<ContentEncryptionFields>(final(v)@) == models_of::<ContentEncryptionFields>(old(v)@) + (match &self.content_enc_key_id { Some(e) => seq![FieldModel::Bin { id: 0x47E2, idx: e.index, key: e.id, b: (*e.v)@ }], None => Seq::empty() }),
    {
        match &self.content_enc_key_id {
            Some(e) => {
                let ghost prevv = v@;
                v.push(ContentEncryptionFields::ContentEncKeyId(crate::dup_ebml_bytes(e)));
                proof {
                    assert(models_of::<ContentEncryptionFields>(v@) =~= models_of::<ContentEncryptionFields>(prevv).push(v@.last().model()));
                    assert(models_of::<ContentEncryptionFields>(prevv).push(v@.last().model()) =~= models_of::<ContentEncryptionFields>(prevv) + (match &self.content_enc_key_id { Some(e) => seq![FieldModel::Bin { id: 0x47E2, idx: e.index, key: e.id, b: (*e.v)@ }], None => Seq::empty() }));
                }
            },
            None => {
                proof {
                    assert(models_of::<ContentEncryptionFields>(v@) =~= models_of::<ContentEncryptionFields>(v@) + (match &self.content_enc_key_id { Some(e) => seq![FieldModel::Bin { id: 0x47E2, idx: e.index, key: e.id, b: (*e.v)@ }], None => Seq::empty() }));
                }
            },
        }
    }

    /// Append the `content_enc_aes_settings` child values to a field run.
    #[verifier::loop_isolation(false)]
    fn push_content_enc_aes_settings(&self, v: &mut Vec<ContentEncryptionFields>)
        ensures
            models_of::<ContentEncryptionFields>(final(v)@) == models_of::<ContentEncryptionFields>(old(v)@) + (match &self.content_enc_aes_settings { Some(e) => seq![FieldModel::Node { id: 0x47E7, idx: e.index, key: e.id, children: (*e.v).model() }], None => Seq::empty() }),
    {
        match &self.content_enc_aes_settings {
            Some(e) => {
                let d = (&*e.v).duplicate();
                proof {
                    reveal(ContentEncAesSettings::model);
                    assert(d.model() == (*e.v).model());
                }
                let ghost prevv = v@;
                v.push(ContentEncryptionFields::ContentEncAesSettings(Ebml { index: e.index, v: Box::new(d), id: e.id }));
                proof {
                    assert(models_of::<ContentEncryptionFields>(v@) =~= models_of::<ContentEncryptionFields>(prevv).push(v@.last().model()));
                    assert(models_of::<ContentEncryptionFields>(prevv).push(v@.last().model()) =~= models_of::<ContentEncryptionFields>(prevv) + (match &self.content_enc_aes_settings { Some(e) => seq![FieldModel::Node { id: 0x47E7, idx: e.index, key: e.id, children: (*e.v).model() }], None => Seq::empty() }));
                }
            },
            None => {
                proof {
                    assert(models_of::<ContentEncryptionFields>(v@) =~= models_of::<ContentEncryptionFields>(v@) + (match &self.content_enc_aes_settings { Some(e) => seq![FieldModel::Node { id: 0x47E7, idx: e.index, key: e.id, children: (*e.v).model() }], None => Seq::empty() }));
                }
            },
        }
    }

    /// Append the `content_signature` child values to a field run.
    #[verifier::loop_isolation(false)]
    fn push_content_signature(&self, v: &mut Vec<ContentEncryptionFields>)
        ensures
            models_of::<ContentEncryptionFields>(final(v)@) == models_of::<ContentEncryptionFields>(old(v)@) + (match &self.content_signature { Some(e) => seq![FieldModel::Bin { id: 0x47E3, idx: e.index, key: e.id, b: (*e.v)@ }], None => Seq::empty() }),
    {
        match &self.content_signature {
            Some(e) => {
                let ghost prevv = v@;
                v.push(ContentEncryptionFields::ContentSignature(crate::dup_ebml_bytes(e)));
                proof {
                    assert(models_of::<ContentEncryptionFields>(v@) =~= models_of::<ContentEncryptionFields>(prevv).push(v@.last().model()));
                    assert(models_of::<ContentEncryptionFields>(prevv).push(v@.last().model()) =~= models_of::<ContentEncryptionFields>(prevv) + (match &self.content_signature { Some(e) => seq![FieldModel::Bin { id: 0x47E3, idx: e.index, key: e.id, b: (*e.v)@ }], None => Seq::empty() }));
                }
            },
            None => {
                proof {
                    assert(models_of::<ContentEncryptionFields>(v@) =~= models_of::<ContentEncryptionFields>(v@) + (match &self.content_signature { Some(e) => seq![FieldModel::Bin { id: 0x47E3, idx: e.index, key: e.id, b: (*e.v)@ }], None => Seq::empty() }));
                }
            },
        }
    }

    /// Append the `content_sig_key_id` child values to a field run.
    #[verifier::loop_isolation(false)]
    fn push_content_sig_key_id(&self, v: &mut Vec<ContentEncryptionFields>)
        ensures
            models_of::<ContentEncryptionFields>(final(v)@) == models_of::<ContentEncryptionFields>(old(v)@) + (match &self.content_sig_key_id { Some(e) => seq![FieldModel::Bin { id: 0x47E4, idx: e.index, key: e.id, b: (*e.v)@ }], None => Seq::empty() }),
    {
        match &self.content_sig_key_id {
            Some(e) => {
                let ghost prevv = v@;
                v.push(ContentEncryptionFields::ContentSigKeyId(crate::dup_ebml_bytes(e)));
                proof {
                    assert(models_of::<ContentEncryptionFields>(v@) =~= models_of::<ContentEncryptionFields>(prevv).push(v@.last().model()));
                    assert(models_of::<ContentEncryptionFields>(prevv).push(v@.last().model()) =~= models_of::<ContentEncryptionFields>(prevv) + (match &self.content_sig_key_id { Some(e) => seq![FieldModel::Bin { id: 0x47E4, idx: e.index, key: e.id, b: (*e.v)@ }], None => Seq::empty() }));
                }
            },
            None => {
                proof {
                    assert(models_of::<ContentEncryptionFields>(v@) =~= models_of::<ContentEncryptionFields>(v@) + (match &self.content_sig_key_id { Some(e) => seq![FieldModel::Bin { id: 0x47E4, idx: e.index, key: e.id, b: (*e.v)@ }], None => Seq::empty() }));
                }
            },
        }
    }

    /// Append the `content_sig_algo` child values to a field run.
    #[verifier::loop_isolation(false)]
    fn push_content_sig_algo(&self, v: &mut Vec<ContentEncryptionFields>)
        ensures
            models_of::<ContentEncryptionFields>(final(v)@) == models_of::<ContentEncryptionFields>(old(v)@) + (match &self.content_sig_algo { Some(e) => seq![FieldModel::UInt { id: 0x47E5, idx: e.index, key: e.id, v: *e.v }], None => Seq::empty() }),
    {
        match &self.content_sig_algo {
            Some(e) => {
                let ghost prevv = v@;
                v.push(ContentEncryptionFields::ContentSigAlgo(crate::dup_ebml_copy(e)));
                proof {
                    assert(models_of::<ContentEncryptionFields>(v@) =~= models_of::<ContentEncryptionFields>(prevv).push(v@.last().model()));
                    assert(models_of::<ContentEncryptionFields>(prevv).push(v@.last().model()) =~= models_of::<ContentEncryptionFields>(prevv) + (match &self.content_sig_algo { Some(e) => seq![FieldModel::UInt { id: 0x47E5, idx: e.index, key: e.id, v: *e.v }], None => Seq::empty() }));
                }
            },
            None => {
                proof {
                    assert(models_of::<ContentEncryptionFields>(v@) =~= models_of::<ContentEncryptionFields>(v@) + (match &self.content_sig_algo { Some(e) => seq![FieldModel::UInt { id: 0x47E5, idx: e.index, key: e.id, v: *e.v }], None => Seq::empty() }));
                }
            },
        }
    }

    /// Append the `content_sig_hash_algo` child values to a field run.
    #[verifier::loop_isolation(false)]
    fn push_content_sig_hash_algo(&self, v: &mut Vec<ContentEncryptionFields>)
        ensures
            models_of::<ContentEncryptionFields>(final(v)@) == models_of::<ContentEncryptionFields>(old(v)@) + (match &self.content_sig_hash_algo { Some(e) => seq![FieldModel::UInt { id: 0x47E6, idx: e.index, key: e.id, v: *e.v }], None => Seq::empty() }),
    {
        match &self.content_sig_hash_algo {
            Some(e) => {
                let ghost prevv = v@;
                v.push(ContentEncryptionFields::ContentSigHashAlgo(crate::dup_ebml_copy(e)));
                proof {
                    assert(models_of::<ContentEncryptionFields>(v@) =~= models_of::<ContentEncryptionFields>(prevv).push(v@.last().model()));
                    assert(models_of::<ContentEncryptionFields>(prevv).push(v@.last().model()) =~= models_of::<ContentEncryptionFields>(prevv) + (match &self.content_sig_hash_algo { Some(e) => seq![FieldModel::UInt { id: 0x47E6, idx: e.index, key: e.id, v: *e.v }], None => Seq::empty() }));
                }
            },
            None => {
                proof {
                    assert(models_of::<ContentEncryptionFields>(v@) =~= models_of::<ContentEncryptionFields>(v@) + (match &self.content_sig_hash_algo { Some(e) => seq![FieldModel::UInt { id: 0x47E6, idx: e.index, key: e.id, v: *e.v }], None => Seq::empty() }));
                }
            },
        }
    }

    /// The present children, each paired with its ID, in emission order.
    #[verifier::rlimit(100)]
    #[verifier::spinoff_prover]
    pub fn elements(&self) -> (r: Vec<ContentEncryptionFields>)
        ensures
            models_of::<ContentEncryptionFields>(r@) == self.model(),
    {
        let mut v: Vec<ContentEncryptionFields> = Vec::new();
        proof {
            assert(models_of::<ContentEncryptionFields>(v@) =~= Seq::<FieldModel>::empty());
        }
        self.push_content_enc_algo(&mut v);
        self.push_content_enc_key_id(&mut v);
        self.push_content_enc_aes_settings(&mut v);
        self.push_content_signature(&mut v);
        self.push_content_sig_key_id(&mut v);
        self.push_content_sig_algo(&mut v);
        self.push_content_sig_hash_algo(&mut v);
        proof {
            reveal(ContentEncryption::raw_model);
            reveal(ContentEncryption::model);
            assert(Seq::<FieldModel>::empty() + seq![FieldModel::UInt { id: 0x47E1, idx: self.content_enc_algo.index, key: self.content_enc_algo.id, v: *self.content_enc_algo.v }] =~= seq![FieldModel::UInt { id: 0x47E1, idx: self.content_enc_algo.index, key: self.content_enc_algo.id, v: *self.content_enc_algo.v }]);
            assert(models_of::<ContentEncryptionFields>(v@) == self.raw_model());
        }
        sort_fields(v)
    }

    /// A deep copy of the `content_enc_algo` slot.
    #[verifier::loop_isolation(false)]
    fn dup_content_enc_algo(&self) -> (r: Ebml<u64>)
        ensures
            seq![FieldModel::UInt { id: 0x47E1, idx: r.index, key: r.id, v: *r.v }] == seq![FieldModel::UInt { id: 0x47E1, idx: self.content_enc_algo.index, key: self.content_enc_algo.id, v: *self.content_enc_algo.v }],
    {
        crate::dup_ebml_copy(&self.content_enc_algo)
    }

    /// A deep copy of the `content_enc_key_id` slot.
    #[verifier::loop_isolation(false)]
    fn dup_content_enc_key_id(&self) -> (r: Option<Ebml<Vec<u8>>>)
        ensures
            (match &r { Some(e) => seq![FieldModel::Bin { id: 0x47E2, idx: e.index, key: e.id, b: (*e.v)@ }], None => Seq::empty() }) == (match &self.content_enc_key_id { Some(e) => seq![FieldModel::Bin { id: 0x47E2, idx: e.index, key: e.id, b: (*e.v)@ }], None => Seq::empty() }),
    {
        match &self.content_enc_key_id {
            Some(e) => Some(crate::dup_ebml_bytes(e)),
            None => None,
        }
    }

    /// A deep copy of the `content_enc_aes_settings` slot.
    #[verifier::loop_isolation(false)]
    fn dup_content_enc_aes_settings(&self) -> (r: Option<Ebml<ContentEncAesSettings>>)
        ensures
            (match &r { Some(e) => seq![FieldModel::Node { id: 0x47E7, idx: e.index, key: e.id, children: (*e.v).model() }], None => Seq::empty() }) == (match &self.content_enc_aes_settings { Some(e) => seq![FieldModel::Node { id: 0x47E7, idx: e.index, key: e.id, children: (*e.v).model() }], None => Seq::empty() }),
    {
        match &self.content_enc_aes_settings {
            Some(e) => {
                let d = (&*e.v).duplicate();
                proof {
                    reveal(ContentEncAesSettings::model);
                    assert(d.model() == (*e.v).model());
                }
                Some(Ebml { index: e.index, v: Box::new(d), id: e.id })
            },
            None => None,
        }
    }

    /// A deep copy of the `content_signature` slot.
    #[verifier::loop_isolation(false)]
    fn dup_content_signature(&self) -> (r: Option<Ebml<Vec<u8>>>)
        ensures
            (match &r { Some(e) => seq![FieldModel::Bin { id: 0x47E3, idx: e.index, key: e.id, b: (*e.v)@ }], None => Seq::empty() }) == (match &self.content_signature { Some(e) => seq![FieldModel::Bin { id: 0x47E3, idx: e.index, key: e.id, b: (*e.v)@ }], None => Seq::empty() }),
    {
        match &self.content_signature {
            Some(e) => Some(crate::dup_ebml_bytes(e)),
            None => None,
        }
    }

    /// A deep copy of the `content_sig_key_id` slot.
    #[verifier::loop_isolation(false)]
    fn dup_content_sig_key_id(&self) -> (r: Option<Ebml<Vec<u8>>>)
        ensures
            (match &r { Some(e) => seq![FieldModel::Bin { id: 0x47E4, idx: e.index, key: e.id, b: (*e.v)@ }], None => Seq::empty() }) == (match &self.content_sig_key_id { Some(e) => seq![FieldModel::Bin { id: 0x47E4, idx: e.index, key: e.id, b: (*e.v)@ }], None => Seq::empty() }),
    {
        match &self.content_sig_key_id {
            Some(e) => Some(crate::dup_ebml_bytes(e)),
            None => None,
        }
    }

    /// A deep copy of the `content_sig_algo` slot.
    #[verifier::loop_isolation(false)]
    fn dup_content_sig_algo(&self) -> (r: Option<Ebml<u64>>)
        ensures
            (match &r { Some(e) => seq![FieldModel::UInt { id: 0x47E5, idx: e.index, key: e.id, v: *e.v }], None => Seq::empty() }) == (match &self.content_sig_algo { Some(e) => seq![FieldModel::UInt { id: 0x47E5, idx: e.index, key: e.id, v: *e.v }], None => Seq::empty() }),
    {
        match &self.content_sig_algo {
            Some(e) => Some(crate::dup_ebml_copy(e)),
            None => None,
        }
    }

    /// A deep copy of the `content_sig_hash_algo` slot.
    #[verifier::loop_isolation(false)]
    fn dup_content_sig_hash_algo(&self) -> (r: Option<Ebml<u64>>)
        ensures
            (match &r { Some(e) => seq![FieldModel::UInt { id: 0x47E6, idx: e.index, key: e.id, v: *e.v }], None => Seq::empty() }) == (match &self.content_sig_hash_algo { Some(e) => seq![FieldModel::UInt { id: 0x47E6, idx: e.index, key: e.id, v: *e.v }], None => Seq::empty() }),
    {
        match &self.content_sig_hash_algo {
            Some(e) => Some(crate::dup_ebml_copy(e)),
            None => None,
        }
    }

    /// A deep copy with the same children, positions, and keys.
    #[verifier::rlimit(100)]
    #[verifier::spinoff_prover]
    pub fn duplicate(&self) -> (r: Self)
        ensures
            r.raw_model() == self.raw_model(),
            r.size == self.size,
    {
        let r = ContentEncryption {
            size: self.size,
            content_enc_algo: self.dup_content_enc_algo(),
            content_enc_key_id: self.dup_content_enc_key_id(),
            content_enc_aes_settings: self.dup_content_enc_aes_settings(),
            content_signature: self.dup_content_signature(),
            content_sig_key_id: self.dup_content_sig_key_id(),
            content_sig_algo: self.dup_content_sig_algo(),
            content_sig_hash_algo: self.dup_content_sig_hash_algo(),
        };
        proof {
            reveal(ContentEncryption::raw_model);
            assert(r.raw_model() == self.raw_model());
        }
        r
    }
}

impl ContentEncryption {
    /// Serialise the whole element: body to a scratch buffer first, then
    /// the header with the now-known length, then the body.
    pub fn write_blocking(&self, w: &mut Vec<u8>) -> (r: Result<usize, MatroskaError>)
        ensures
            r is Ok <==> body_ok_rec(self.model()) && cat_bytes(self.model()).len() < 0xFFFFFFFFFFFFFF,
            r is Ok ==> final(w)@ == old(w)@ + node_frame_bytes(0x5035, cat_bytes(self.model()))
                && r->Ok_0 == node_frame_bytes(0x5035, cat_bytes(self.model())).len(),
            r is Err ==> final(w)@ == old(w)@ && r->Err_0 is InvalidVarIntMoreThanVintMax,
    {
        let mut buf: Vec<u8> = Vec::new();
        match self.write_body_blocking(&mut buf) {
            Ok(_) => {},
            Err(e) => {
                return Err(e);
            },
        }
        let start = w.len();
        match crate::io::write_element_id_size(w, 0x5035, buf.len() as u64) {
            Ok(_) => {},
            Err(e) => {
                return Err(e);
            },
        }
        w.append(&mut buf);
        Ok(w.len() - start)
    }

    /// Write this element's header with the given body size.
    pub fn write_header_blocking(&self, w: &mut Vec<u8>, size: u64) -> (r: Result<usize, MatroskaError>)
        ensures
            r is Ok <==> crate::io::size_encodable(size),
            r is Ok ==> final(w)@ == old(w)@ + crate::io::header_bytes(0x5035, size)
                && r->Ok_0 == crate::io::header_bytes(0x5035, size).len(),
            r is Err ==> final(w)@ == old(w)@ && r->Err_0 is InvalidVarIntMoreThanVintMax,
    {
        crate::io::write_element_id_size(w, 0x5035, size)
    }

    /// Write the body: every present child, in emission order.
    #[verifier::loop_isolation(false)]
    #[verifier::rlimit(60)]
    #[verifier::spinoff_prover]
    pub fn write_body_blocking(&self, w: &mut Vec<u8>) -> (r: Result<usize, MatroskaError>)
        ensures
            r is Ok <==> body_ok_rec(self.model()),
            r is Ok ==> final(w)@ == old(w)@ + cat_bytes(self.model())
                && r->Ok_0 == cat_bytes(self.model()).len(),
            r is Err ==> r->Err_0 is InvalidVarIntMoreThanVintMax,
    {
        let fields = self.elements();
        let start = w.len();
        let ghost ms = self.model();
        let mut i: usize = 0;
        while i < fields.len()
            invariant
                i <= fields@.len(),
                models_of::<ContentEncryptionFields>(fields@) == ms,
                w@ == old(w)@ + cat_bytes(ms.take(i as int)),
                body_ok_rec(ms.take(i as int)),
            decreases fields@.len() - i,
        {
            proof {
                assert(models_of::<ContentEncryptionFields>(fields@)[i as int] == ms[i as int]);
            }
            match fields[i].write_el(w) {
                Ok(_) => {},
                Err(e) => {
                    proof {
                        lemma_body_ok_forall(ms);
                    }
                    return Err(e);
                },
            }
            proof {
                assert(ms.take(i + 1) =~= ms.take(i as int).push(ms[i as int]));
                lemma_cat_snoc(ms.take(i as int), ms[i as int]);
            }
            i += 1;
        }
        proof {
            assert(ms.take(ms.len() as int) =~= ms);
            lemma_body_ok_forall(ms);
        }
        Ok(w.len() - start)
    }
}

/// One present child of a `ContentEncryption`, paired with its value.
#[derive(Debug)]
pub enum ContentEncryptionFields {
    ContentEncAlgo(Ebml<u64>),
    ContentEncKeyId(Ebml<Vec<u8>>),
    ContentEncAesSettings(Ebml<ContentEncAesSettings>),
    ContentSignature(Ebml<Vec<u8>>),
    ContentSigKeyId(Ebml<Vec<u8>>),
    ContentSigAlgo(Ebml<u64>),
    ContentSigHashAlgo(Ebml<u64>),
}

impl ContentEncryptionFields {
    /// The child's element ID and its two ordering slots.
    #[verifier::rlimit(60)]
    #[verifier::spinoff_prover]
    pub fn index(&self) -> (r: (EbmlId, Option<u64>, u64))
        ensures
            r.0.spec_u64() == self.model().eid(),
            r.1 == self.model().idx(),
            r.2 == self.model().key(),
    {
        match self {
            Self::ContentEncAlgo(val) => (EbmlId::ContentEncAlgo, val.index, val.id),
            Self::ContentEncKeyId(val) => (EbmlId::ContentEncKeyId, val.index, val.id),
            Self::ContentEncAesSettings(val) => (EbmlId::ContentEncAesSettings, val.index, val.id),
            Self::ContentSignature(val) => (EbmlId::ContentSignature, val.index, val.id),
            Self::ContentSigKeyId(val) => (EbmlId::ContentSigKeyId, val.index, val.id),
            Self::ContentSigAlgo(val) => (EbmlId::ContentSigAlgo, val.index, val.id),
            Self::ContentSigHashAlgo(val) => (EbmlId::ContentSigHashAlgo, val.index, val.id),
        }
    }

    /// Write this child's frame.
    #[verifier::rlimit(60)]
    #[verifier::spinoff_prover]
    pub fn write_el(&self, w: &mut Vec<u8>) -> (r: Result<usize, MatroskaError>)
        ensures
            r is Ok <==> el_ok(self.model()),
            r is Ok ==> final(w)@ == old(w)@ + el_bytes(self.model())
                && r->Ok_0 == el_bytes(self.model()).len(),
            r is Err ==> final(w)@ == old(w)@ && r->Err_0 is InvalidVarIntMoreThanVintMax,
    {
        match self {
            Self::ContentEncAlgo(val) => crate::io::write_el_uint(w, 0x47E1, &*val.v),
            Self::ContentEncKeyId(val) => crate::io::write_el_bin(w, 0x47E2, (*val.v).as_slice()),
            Self::ContentEncAesSettings(val) => (*val.v).write_blocking(w),
            Self::ContentSignature(val) => crate::io::write_el_bin(w, 0x47E3, (*val.v).as_slice()),
            Self::ContentSigKeyId(val) => crate::io::write_el_bin(w, 0x47E4, (*val.v).as_slice()),
            Self::ContentSigAlgo(val) => crate::io::write_el_uint(w, 0x47E5, &*val.v),
            Self::ContentSigHashAlgo(val) => crate::io::write_el_uint(w, 0x47E6, &*val.v),
        }
    }
}

impl EbmlField for ContentEncryptionFields {
    open spec fn model(&self) -> FieldModel {
        match self {
            Self::ContentEncAlgo(e) => FieldModel::UInt { id: 0x47E1, idx: e.index, key: e.id, v: *e.v },
            Self::ContentEncKeyId(e) => FieldModel::Bin { id: 0x47E2, idx: e.index, key: e.id, b: (*e.v)@ },
            Self::ContentEncAesSettings(e) => FieldModel::Node { id: 0x47E7, idx: e.index, key: e.id, children: (*e.v).model() },
            Self::ContentSignature(e) => FieldModel::Bin { id: 0x47E3, idx: e.index, key: e.id, b: (*e.v)@ },
            Self::ContentSigKeyId(e) => FieldModel::Bin { id: 0x47E4, idx: e.index, key: e.id, b: (*e.v)@ },
            Self::ContentSigAlgo(e) => FieldModel::UInt { id: 0x47E5, idx: e.index, key: e.id, v: *e.v },
            Self::ContentSigHashAlgo(e) => FieldModel::UInt { id: 0x47E6, idx: e.index, key: e.id, v: *e.v },
        }
    }

    fn sort_key(&self) -> (r: (Option<u64>, u64)) {
        match self {
            Self::ContentEncAlgo(e) => (e.index, e.id),
            Self::ContentEncKeyId(e) => (e.index, e.id),
            Self::ContentEncAesSettings(e) => (e.index, e.id),
            Self::ContentSignature(e) => (e.index, e.id),
            Self::ContentSigKeyId(e) => (e.index, e.id),
            Self::ContentSigAlgo(e) => (e.index, e.id),
            Self::ContentSigHashAlgo(e) => (e.index, e.id),
        }
    }
}

/// The `ContentEncAesSettings` structural element.
#[derive(Debug)]
pub struct ContentEncAesSettings {
    pub size: u64,
    pub aes_settings_cipher_mode: Ebml<u64>,
}

impl ContentEncAesSettings {
    /// The models of the children, in declaration order.
    #[verifier::opaque]
    pub open spec fn raw_model(self) -> Seq<FieldModel>
    {
        seq![FieldModel::UInt { id: 0x47E8, idx: self.aes_settings_cipher_mode.index, key: self.aes_settings_cipher_mode.id, v: *self.aes_settings_cipher_mode.v }]
    }

    /// The children in emission order.
    #[verifier::opaque]
    pub open spec fn model(self) -> Seq<FieldModel>
    {
        sort_fields_spec(self.raw_model())
    }

    /// Append the `aes_settings_cipher_mode` child values to a field run.
    #[verifier::loop_isolation(false)]
    fn push_aes_settings_cipher_mode(&self, v: &mut Vec<ContentEncAesSettingsFields>)
        ensures
            models_of::<ContentEncAesSettingsFields>(final(v)@) == models_of::<ContentEncAesSettingsFields>(old(v)@) + seq![FieldModel::UInt { id: 0x47E8, idx: self.aes_settings_cipher_mode.index, key: self.aes_settings_cipher_mode.id, v: *self.aes_settings_cipher_mode.v }],
    {
        let ghost prevv = v@;
        v.push(ContentEncAesSettingsFields::AesSettingsCipherMode(crate::dup_ebml_copy(&self.aes_settings_cipher_mode)));
        proof {
            assert(models_of::<ContentEncAesSettingsFields>(v@) =~= models_of::<ContentEncAesSettingsFields>(prevv).push(v@.last().model()));
            assert(models_of::<ContentEncAesSettingsFields>(prevv).push(v@.last().model()) =~= models_of::<ContentEncAesSettingsFields>(prevv) + seq![FieldModel::UInt { id: 0x47E8, idx: self.aes_settings_cipher_mode.index, key: self.aes_settings_cipher_mode.id, v: *self.aes_settings_cipher_mode.v }]);
        }
    }

    /// The present children, each paired with its ID, in emission order.
    #[verifier::rlimit(100)]
    #[verifier::spinoff_prover]
    pub fn elements(&self) -> (r: Vec<ContentEncAesSettingsFields>)
        ensures
            models_of::<ContentEncAesSettingsFields>(r@) == self.model(),
    {
        let mut v: Vec<ContentEncAesSettingsFields> = Vec::new();
        proof {
            assert(models_of::<ContentEncAesSettingsFields>(v@) =~= Seq::<FieldModel>::empty());
        }
        self.push_aes_settings_cipher_mode(&mut v);
        proof {
            reveal(ContentEncAesSettings::raw_model);
            reveal(ContentEncAesSettings::model);
            assert(Seq::<FieldModel>::empty() + seq![FieldModel::UInt { id: 0x47E8, idx: self.aes_settings_cipher_mode.index, key: self.aes_settings_cipher_mode.id, v: *self.aes_settings_cipher_mode.v }] =~= seq![FieldModel::UInt { id: 0x47E8, idx: self.aes_settings_cipher_mode.index, key: self.aes_settings_cipher_mode.id, v: *self.aes_settings_cipher_mode.v }]);
            assert(models_of::<ContentEncAesSettingsFields>(v@) == self.raw_model());
        }
        sort_fields(v)
    }

    /// A deep copy of the `aes_settings_cipher_mode` slot.
    #[verifier::loop_isolation(false)]
    fn dup_aes_settings_cipher_mode(&self) -> (r: Ebml<u64>)
        ensures
            seq![FieldModel::UInt { id: 0x47E8, idx: r.index, key: r.id, v: *r.v }] == seq![FieldModel::UInt { id: 0x47E8, idx: self.aes_settings_cipher_mode.index, key: self.aes_settings_cipher_mode.id, v: *self.aes_settings_cipher_mode.v }],
    {
        crate::dup_ebml_copy(&self.aes_settings_cipher_mode)
    }

    /// A deep copy with the same children, positions, and keys.
    #[verifier::rlimit(100)]
    #[verifier::spinoff_prover]
    pub fn duplicate(&self) -> (r: Self)
        ensures
            r.raw_model() == self.raw_model(),
            r.size == self.size,
    {
        let r = ContentEncAesSettings {
            size: self.size,
            aes_settings_cipher_mode: self.dup_aes_settings_cipher_mode(),
        };
        proof {
            reveal(ContentEncAesSettings::raw_model);
            assert(r.raw_model() == self.raw_model());
        }
        r
    }
}

impl ContentEncAesSettings {
    /// Serialise the whole element: body to a scratch buffer first, then
    /// the header with the now-known length, then the body.
    pub fn write_blocking(&self, w: &mut Vec<u8>) -> (r: Result<usize, MatroskaError>)
        ensures
            r is Ok <==> body_ok_rec(self.model()) && cat_bytes(self.model()).len() < 0xFFFFFFFFFFFFFF,
            r is Ok ==> final(w)@ == old(w)@ + node_frame_bytes(0x47E7, cat_bytes(self.model()))
                && r->Ok_0 == node_frame_bytes(0x47E7, cat_bytes(self.model())).len(),
            r is Err ==> final(w)@ == old(w)@ && r->Err_0 is InvalidVarIntMoreThanVintMax,
    {
        let mut buf: Vec<u8> = Vec::new();
        match self.write_body_blocking(&mut buf) {
            Ok(_) => {},
            Err(e) => {
                return Err(e);
            },
        }
        let start = w.len();
        match crate::io::write_element_id_size(w, 0x47E7, buf.len() as u64) {
            Ok(_) => {},
            Err(e) => {
                return Err(e);
            },
        }
        w.append(&mut buf);
        Ok(w.len() - start)
    }

    /// Write this element's header with the given body size.
    pub fn write_header_blocking(&self, w: &mut Vec<u8>, size: u64) -> (r: Result<usize, MatroskaError>)
        ensures
            r is Ok <==> crate::io::size_encodable(size),
            r is Ok ==> final(w)@ == old(w)@ + crate::io::header_bytes(0x47E7, size)
                && r->Ok_0 == crate::io::header_bytes(0x47E7, size).len(),
            r is Err ==> final(w)@ == old(w)@ && r->Err_0 is InvalidVarIntMoreThanVintMax,
    {
        crate::io::write_element_id_size(w, 0x47E7, size)
    }

    /// Write the body: every present child, in emission order.
    #[verifier::loop_isolation(false)]
    #[verifier::rlimit(60)]
    #[verifier::spinoff_prover]
    pub fn write_body_blocking(&self, w: &mut Vec<u8>) -> (r: Result<usize, MatroskaError>)
        ensures
            r is Ok <==> body_ok_rec(self.model()),
            r is Ok ==> final(w)@ == old(w)@ + cat_bytes(self.model())
                && r->Ok_0 == cat_bytes(self.model()).len(),
            r is Err ==> r->Err_0 is InvalidVarIntMoreThanVintMax,
    {
        let fields = self.elements();
        let start = w.len();
        let ghost ms = self.model();
        let mut i: usize = 0;
        while i < fields.len()
            invariant
                i <= fields@.len(),
                models_of::<ContentEncAesSettingsFields>(fields@) == ms,
                w@ == old(w)@ + cat_bytes(ms.take(i as int)),
                body_ok_rec(ms.take(i as int)),
            decreases fields@.len() - i,
        {
            proof {
                assert(models_of::<ContentEncAesSettingsFields>(fields@)[i as int] == ms[i as int]);
            }
            match fields[i].write_el(w) {
                Ok(_) => {},
                Err(e) => {
                    proof {
                        lemma_body_ok_forall(ms);
                    }
                    return Err(e);
                },
            }
            proof {
                assert(ms.take(i + 1) =~= ms.take(i as int).push(ms[i as int]));
                lemma_cat_snoc(ms.take(i as int), ms[i as int]);
            }
            i += 1;
        }
        proof {
            assert(ms.take(ms.len() as int) =~= ms);
            lemma_body_ok_forall(ms);
        }
        Ok(w.len() - start)
    }
}

/// One present child of a `ContentEncAesSettings`, paired with its value.
#[derive(Debug)]
pub enum ContentEncAesSettingsFields {
    AesSettingsCipherMode(Ebml<u64>),
}

impl ContentEncAesSettingsFields {
    /// The child's element ID and its two ordering slots.
    #[verifier::rlimit(60)]
    #[verifier::spinoff_prover]
    pub fn index(&self) -> (r: (EbmlId, Option<u64>, u64))
        ensures
            r.0.spec_u64() == self.model().eid(),
            r.1 == self.model().idx(),
            r.2 == self.model().key(),
    {
        match self {
            Self::AesSettingsCipherMode(val) => (EbmlId::AesSettingsCipherMode, val.index, val.id),
        }
    }

    /// Write this child's frame.
    #[verifier::rlimit(60)]
    #[verifier::spinoff_prover]
    pub fn write_el(&self, w: &mut Vec<u8>) -> (r: Result<usize, MatroskaError>)
        ensures
            r is Ok <==> el_ok(self.model()),
            r is Ok ==> final(w)@ == old(w)@ + el_bytes(self.model())
                && r->Ok_0 == el_bytes(self.model()).len(),
            r is Err ==> final(w)@ == old(w)@ && r->Err_0 is InvalidVarIntMoreThanVintMax,
    {
        match self {
            Self::AesSettingsCipherMode(val) => crate::io::write_el_uint(w, 0x47E8, &*val.v),
        }
    }
}

impl EbmlField for ContentEncAesSettingsFields {
    open spec fn model(&self) -> FieldModel {
        match self {
            Self::AesSettingsCipherMode(e) => FieldModel::UInt { id: 0x47E8, idx: e.index, key: e.id, v: *e.v },
        }
    }

    fn sort_key(&self) -> (r: (Option<u64>, u64)) {
        match self {
            Self::AesSettingsCipherMode(e) => (e.index, e.id),
        }
    }
}

/// The `Cues` structural element.
#[derive(Debug)]
pub struct Cues {
    pub size: u64,
    pub cue_point: Vec<Ebml<CuePoint>>,
}

/// The models of the `cue_point` children of a `Cues`.
pub open spec fn cues_cue_point_models(s: Seq<Ebml<CuePoint>>) -> Seq<FieldModel> {
    s.map_values(|e: Ebml<CuePoint>| FieldModel::Node { id: 0xBB, idx: e.index, key: e.id, children: (*e.v).model() })
}

impl Cues {
    /// The models of the children, in declaration order.
    #[verifier::opaque]
    pub open spec fn raw_model(self) -> Seq<FieldModel>
    {
        cues_cue_point_models(self.cue_point@)
    }

    /// The children in emission order.
    #[verifier::opaque]
    pub open spec fn model(self) -> Seq<FieldModel>
    {
        sort_fields_spec(self.raw_model())
    }

    /// Append the `cue_point` child values to a field run.
    #[verifier::loop_isolation(false)]
    fn push_cue_point(&self, v: &mut Vec<CuesFields>)
        ensures
            models_of::<CuesFields>(final(v)@) == models_of::<CuesFields>(old(v)@) + cues_cue_point_models(self.cue_point@),
    {
        let ghost base = models_of::<CuesFields>(v@);
        let mut i: usize = 0;
        while i < self.cue_point.len()
            invariant
                i <= self.cue_point@.len(),
                models_of::<CuesFields>(v@) == base + cues_cue_point_models(self.cue_point@.take(i as int)),
            decreases self.cue_point@.len() - i,
        {
            let e = &self.cue_point[i];
            let d = (&*e.v).duplicate();
            proof {
                reveal(CuePoint::model);
                assert(d.model() == (*e.v).model());
            }
            let ghost prevv = v@;
            v.push(CuesFields::CuePoint(Ebml { index: e.index, v: Box::new(d), id: e.id }));
            proof {
                assert(self.cue_point@.take(i + 1) =~= self.cue_point@.take(i as int).push(self.cue_point@[i as int]));
                assert(models_of::<CuesFields>(v@) =~= models_of::<CuesFields>(prevv).push(v@.last().model()));
                assert(cues_cue_point_models(self.cue_point@.take(i + 1)) =~= cues_cue_point_models(self.cue_point@.take(i as int)).push(v@.last().model()));
                assert(base + cues_cue_point_models(self.cue_point@.take(i + 1)) =~= (base + cues_cue_point_models(self.cue_point@.take(i as int))).push(v@.last().model()));
            }
            i += 1;
        }
        proof {
            assert(self.cue_point@.take(self.cue_point@.len() as int) =~= self.cue_point@);
        }
    }

    /// The present children, each paired with its ID, in emission order.
    #[verifier::rlimit(100)]
    #[verifier::spinoff_prover]
    pub fn elements(&self) -> (r: Vec<CuesFields>)
        ensures
            models_of::<CuesFields>(r@) == self.model(),
    {
        let mut v: Vec<CuesFields> = Vec::new();
        proof {
            assert(models_of::<CuesFields>(v@) =~= Seq::<FieldModel>::empty());
        }
        self.push_cue_point(&mut v);
        proof {
            reveal(Cues::raw_model);
            reveal(Cues::model);
            assert(Seq::<FieldModel>::empty() + cues_cue_point_models(self.cue_point@) =~= cues_cue_point_models(self.cue_point@));
            assert(models_of::<CuesFields>(v@) == self.raw_model());
        }
        sort_fields(v)
    }

    /// A deep copy of the `cue_point` slot.
    #[verifier::loop_isolation(false)]
    fn dup_cue_point(&self) -> (r: Vec<Ebml<CuePoint>>)
        ensures
            cues_cue_point_models(r@) == cues_cue_point_models(self.cue_point@),
    {
        let mut out: Vec<Ebml<CuePoint>> = Vec::new();
        let mut i: usize = 0;
        while i < self.cue_point.len()
            invariant
                i <= self.cue_point@.len(),
                cues_cue_point_models(out@) == cues_cue_point_models(self.cue_point@.take(i as int)),
            decreases self.cue_point@.len() - i,
        {
            let e = &self.cue_point[i];
            let d = (&*e.v).duplicate();
            proof {
                reveal(CuePoint::model);
                assert(d.model() == (*e.v).model());
            }
            let ghost prevo = out@;
            out.push(Ebml { index: e.index, v: Box::new(d), id: e.id });
            proof {
                assert(self.cue_point@.take(i + 1) =~= self.cue_point@.take(i as int).push(self.cue_point@[i as int]));
                assert(out@.drop_last() =~= prevo);
                assert(self.cue_point@.take(i + 1).drop_last() =~= self.cue_point@.take(i as int));
                assert(FieldModel::Node { id: 0xBB, idx: (out@.last()).index, key: (out@.last()).id, children: (*(out@.last()).v).model() } == FieldModel::Node { id: 0xBB, idx: (self.cue_point@[i as int]).index, key: (self.cue_point@[i as int]).id, children: (*(self.cue_point@[i as int]).v).model() });
                assert(cues_cue_point_models(out@) =~= cues_cue_point_models(prevo).push(FieldModel::Node { id: 0xBB, idx: (out@.last()).index, key: (out@.last()).id, children: (*(out@.last()).v).model() }));
                assert(cues_cue_point_models(self.cue_point@.take(i + 1)) =~= cues_cue_point_models(self.cue_point@.take(i as int)).push(FieldModel::Node { id: 0xBB, idx: (self.cue_point@[i as int]).index, key: (self.cue_point@[i as int]).id, children: (*(self.cue_point@[i as int]).v).model() }));
            }
            i += 1;
        }
        proof {
            assert(self.cue_point@.take(self.cue_point@.len() as int) =~= self.cue_point@);
        }
        out
    }

    /// A deep copy with the same children, positions, and keys.
    #[verifier::rlimit(100)]
    #[verifier::spinoff_prover]
    pub fn duplicate(&self) -> (r: Self)
        ensures
            r.raw_model() == self.raw_model(),
            r.size == self.size,
    {
        let r = Cues {
            size: self.size,
            cue_point: self.dup_cue_point(),
        };
        proof {
            reveal(Cues::raw_model);
            assert(r.raw_model() == self.raw_model());
        }
        r
    }
}

impl Cues {
    /// Serialise the whole element: body to a scratch buffer first, then
    /// the header with the now-known length, then the body.
    pub fn write_blocking(&self, w: &mut Vec<u8>) -> (r: Result<usize, MatroskaError>)
        ensures
            r is Ok <==> body_ok_rec(self.model()) && cat_bytes(self.model()).len() < 0xFFFFFFFFFFFFFF,
            r is Ok ==> final(w)@ == old(w)@ + node_frame_bytes(0x1C53BB6B, cat_bytes(self.model()))
                && r->Ok_0 == node_frame_bytes(0x1C53BB6B, cat_bytes(self.model())).len(),
            r is Err ==> final(w)@ == old(w)@ && r->Err_0 is InvalidVarIntMoreThanVintMax,
    {
        let mut buf: Vec<u8> = Vec::new();
        match self.write_body_blocking(&mut buf) {
            Ok(_) => {},
            Err(e) => {
                return Err(e);
            },
        }
        let start = w.len();
        match crate::io::write_element_id_size(w, 0x1C53BB6B, buf.len() as u64) {
            Ok(_) => {},
            Err(e) => {
                return Err(e);
            },
        }
        w.append(&mut buf);
        Ok(w.len() - start)
    }

    /// Write this element's header with the given body size.
    pub fn write_header_blocking(&self, w: &mut Vec<u8>, size: u64) -> (r: Result<usize, MatroskaError>)
        ensures
            r is Ok <==> crate::io::size_encodable(size),
            r is Ok ==> final(w)@ == old(w)@ + crate::io::header_bytes(0x1C53BB6B, size)
                && r->Ok_0 == crate::io::header_bytes(0x1C53BB6B, size).len(),
            r is Err ==> final(w)@ == old(w)@ && r->Err_0 is InvalidVarIntMoreThanVintMax,
    {
        crate::io::write_element_id_size(w, 0x1C53BB6B, size)
    }

    /// Write the body: every present child, in emission order.
    #[verifier::loop_isolation(false)]
    #[verifier::rlimit(60)]
    #[verifier::spinoff_prover]
    pub fn write_body_blocking(&self, w: &mut Vec<u8>) -> (r: Result<usize, MatroskaError>)
        ensures
            r is Ok <==> body_ok_rec(self.model()),
            r is Ok ==> final(w)@ == old(w)@ + cat_bytes(self.model())
                && r->Ok_0 == cat_bytes(self.model()).len(),
            r is Err ==> r->Err_0 is InvalidVarIntMoreThanVintMax,
    {
        let fields = self.elements();
        let start = w.len();
        let ghost ms = self.model();
        let mut i: usize = 0;
        while i < fields.len()
            invariant
                i <= fields@.len(),
                models_of::<CuesFields>(fields@) == ms,
                w@ == old(w)@ + cat_bytes(ms.take(i as int)),
                body_ok_rec(ms.take(i as int)),
            decreases fields@.len() - i,
        {
            proof {
                assert(models_of::<CuesFields>(fields@)[i as int] == ms[i as int]);
            }
            match fields[i].write_el(w) {
                Ok(_) => {},
                Err(e) => {
                    proof {
                        lemma_body_ok_forall(ms);
                    }
                    return Err(e);
                },
            }
            proof {
                assert(ms.take(i + 1) =~= ms.take(i as int).push(ms[i as int]));
                lemma_cat_snoc(ms.take(i as int), ms[i as int]);
            }
            i += 1;
        }
        proof {
            assert(ms.take(ms.len() as int) =~= ms);
            lemma_body_ok_forall(ms);
        }
        Ok(w.len() - start)
    }
}

/// One present child of a `Cues`, paired with its value.
#[derive(Debug)]
pub enum CuesFields {
    CuePoint(Ebml<CuePoint>),
}

impl CuesFields {
    /// The child's element ID and its two ordering slots.
    #[verifier::rlimit(60)]
    #[verifier::spinoff_prover]
    pub fn index(&self) -> (r: (EbmlId, Option<u64>, u64))
        ensures
            r.0.spec_u64() == self.model().eid(),
            r.1 == self.model().idx(),
            r.2 == self.model().key(),
    {
        match self {
            Self::CuePoint(val) => (EbmlId::CuePoint, val.index, val.id),
        }
    }

    /// Write this child's frame.
    #[verifier::rlimit(60)]
    #[verifier::spinoff_prover]
    pub fn write_el(&self, w: &mut Vec<u8>) -> (r: Result<usize, MatroskaError>)
        ensures
            r is Ok <==> el_ok(self.model()),
            r is Ok ==> final(w)@ == old(w)@ + el_bytes(self.model())
                && r->Ok_0 == el_bytes(self.model()).len(),
            r is Err ==> final(w)@ == old(w)@ && r->Err_0 is InvalidVarIntMoreThanVintMax,
    {
        match self {
            Self::CuePoint(val) => (*val.v).write_blocking(w),
        }
    }
}

impl EbmlField for CuesFields {
    open spec fn model(&self) -> FieldModel {
        match self {
            Self::CuePoint(e) => FieldModel::Node { id: 0xBB, idx: e.index, key: e.id, children: (*e.v).model() },
        }
    }

    fn sort_key(&self) -> (r: (Option<u64>, u64)) {
        match self {
            Self::CuePoint(e) => (e.index, e.id),
        }
    }
}

/// The `CuePoint` structural element.
#[derive(Debug)]
pub struct CuePoint {
    pub size: u64,
    pub cue_time: Ebml<u64>,
    pub cue_track_positions: Vec<Ebml<CueTrackPositions>>,
}

/// The models of the `cue_track_positions` children of a `CuePoint`.
pub open spec fn cuepoint_cue_track_positions_models(s: Seq<Ebml<CueTrackPositions>>) -> Seq<FieldModel> {
    s.map_values(|e: Ebml<CueTrackPositions>| FieldModel::Node { id: 0xB7, idx: e.index, key: e.id, children: (*e.v).model() })
}

impl CuePoint {
    /// The models of the children, in declaration order.
    #[verifier::opaque]
    pub open spec fn raw_model(self) -> Seq<FieldModel>
    {
        seq![FieldModel::UInt { id: 0xB3, idx: self.cue_time.index, key: self.cue_time.id, v: *self.cue_time.v }]
            + cuepoint_cue_track_positions_models(self.cue_track_positions@)
    }

    /// The children in emission order.
    #[verifier::opaque]
    pub open spec fn model(self) -> Seq<FieldModel>
    {
        sort_fields_spec(self.raw_model())
    }

    /// Append the `cue_time` child values to a field run.
    #[verifier::loop_isolation(false)]
    fn push_cue_time(&self, v: &mut Vec<CuePointFields>)
        ensures
            models_of::<CuePointFields>(final(v)@) == models_of::<CuePointFields>(old(v)@) + seq![FieldModel::UInt { id: 0xB3, idx: self.cue_time.index, key: self.cue_time.id, v: *self.cue_time.v }],
    {
        let ghost prevv = v@;
        v.push(CuePointFields::CueTime(crate::dup_ebml_copy(&self.cue_time)));
        proof {
            assert(models_of::<CuePointFields>(v@) =~= models_of::<CuePointFields>(prevv).push(v@.last().model()));
            assert(models_of::<CuePointFields>(prevv).push(v@.last().model()) =~= models_of::<CuePointFields>(prevv) + seq![FieldModel::UInt { id: 0xB3, idx: self.cue_time.index, key: self.cue_time.id, v: *self.cue_time.v }]);
        }
    }

    /// Append the `cue_track_positions` child values to a field run.
    #[verifier::loop_isolation(false)]
    fn push_cue_track_positions(&self, v: &mut Vec<CuePointFields>)
        ensures
            models_of::<CuePointFields>(final(v)@) == models_of::<CuePointFields>(old(v)@) + cuepoint_cue_track_positions_models(self.cue_track_positions@),
    {
        let ghost base = models_of::<CuePointFields>(v@);
        let mut i: usize = 0;
        while i < self.cue_track_positions.len()
            invariant
                i <= self.cue_track_positions@.len(),
                models_of::<CuePointFields>(v@) == base + cuepoint_cue_track_positions_models(self.cue_track_positions@.take(i as int)),
            decreases self.cue_track_positions@.len() - i,
        {
            let e = &self.cue_track_positions[i];
            let d = (&*e.v).duplicate();
            proof {
                reveal(CueTrackPositions::model);
                assert(d.model() == (*e.v).model());
            }
            let ghost prevv = v@;
            v.push(CuePointFields::CueTrackPositions(Ebml { index: e.index, v: Box::new(d), id: e.id }));
            proof {
                assert(self.cue_track_positions@.take(i + 1) =~= self.cue_track_positions@.take(i as int).push(self.cue_track_positions@[i as int]));
                assert(models_of::<CuePointFields>(v@) =~= models_of::<CuePointFields>(prevv).push(v@.last().model()));
                assert(cuepoint_cue_track_positions_models(self.cue_track_positions@.take(i + 1)) =~= cuepoint_cue_track_positions_models(self.cue_track_positions@.take(i as int)).push(v@.last().model()));
                assert(base + cuepoint_cue_track_positions_models(self.cue_track_positions@.take(i + 1)) =~= (base + cuepoint_cue_track_positions_models(self.cue_track_positions@.take(i as int))).push(v@.last().model()));
            }
            i += 1;
        }
        proof {
            assert(self.cue_track_positions@.take(self.cue_track_positions@.len() as int) =~= self.cue_track_positions@);
        }
    }

    /// The present children, each paired with its ID, in emission order.
    #[verifier::rlimit(100)]
    #[verifier::spinoff_prover]
    pub fn elements(&self) -> (r: Vec<CuePointFields>)
        ensures
            models_of::<CuePointFields>(r@) == self.model(),
    {
        let mut v: Vec<CuePointFields> = Vec::new();
        proof {
            assert(models_of::<CuePointFields>(v@) =~= Seq::<FieldModel>::empty());
        }
        self.push_cue_time(&mut v);
        self.push_cue_track_positions(&mut v);
        proof {
            reveal(CuePoint::raw_model);
            reveal(CuePoint::model);
            assert(Seq::<FieldModel>::empty() + seq![FieldModel::UInt { id: 0xB3, idx: self.cue_time.index, key: self.cue_time.id, v: *self.cue_time.v }] =~= seq![FieldModel::UInt { id: 0xB3, idx: self.cue_time.index, key: self.cue_time.id, v: *self.cue_time.v }]);
            assert(models_of::<CuePointFields>(v@) == self.raw_model());
        }
        sort_fields(v)
    }

    /// A deep copy of the `cue_time` slot.
    #[verifier::loop_isolation(false)]
    fn dup_cue_time(&self) -> (r: Ebml<u64>)
        ensures
            seq![FieldModel::UInt { id: 0xB3, idx: r.index, key: r.id, v: *r.v }] == seq![FieldModel::UInt { id: 0xB3, idx: self.cue_time.index, key: self.cue_time.id, v: *self.cue_time.v }],
    {
        crate::dup_ebml_copy(&self.cue_time)
    }

    /// A deep copy of the `cue_track_positions` slot.
    #[verifier::loop_isolation(false)]
    fn dup_cue_track_positions(&self) -> (r: Vec<Ebml<CueTrackPositions>>)
        ensures
            cuepoint_cue_track_positions_models(r@) == cuepoint_cue_track_positions_models(self.cue_track_positions@),
    {
        let mut out: Vec<Ebml<CueTrackPositions>> = Vec::new();
        let mut i: usize = 0;
        while i < self.cue_track_positions.len()
            invariant
                i <= self.cue_track_positions@.len(),
                cuepoint_cue_track_positions_models(out@) == cuepoint_cue_track_positions_models(self.cue_track_positions@.take(i as int)),
            decreases self.cue_track_positions@.len() - i,
        {
            let e = &self.cue_track_positions[i];
            let d = (&*e.v).duplicate();
            proof {
                reveal(CueTrackPositions::model);
                assert(d.model() == (*e.v).model());
            }
            let ghost prevo = out@;
            out.push(Ebml { index: e.index, v: Box::new(d), id: e.id });
            proof {
                assert(self.cue_track_positions@.take(i + 1) =~= self.cue_track_positions@.take(i as int).push(self.cue_track_positions@[i as int]));
                assert(out@.drop_last() =~= prevo);
                assert(self.cue_track_positions@.take(i + 1).drop_last() =~= self.cue_track_positions@.take(i as int));
                assert(FieldModel::Node { id: 0xB7, idx: (out@.last()).index, key: (out@.last()).id, children: (*(out@.last()).v).model() } == FieldModel::Node { id: 0xB7, idx: (self.cue_track_positions@[i as int]).index, key: (self.cue_track_positions@[i as int]).id, children: (*(self.cue_track_positions@[i as int]).v).model() });
                assert(cuepoint_cue_track_positions_models(out@) =~= cuepoint_cue_track_positions_models(prevo).push(FieldModel::Node { id: 0xB7, idx: (out@.last()).index, key: (out@.last()).id, children: (*(out@.last()).v).model() }));
                assert(cuepoint_cue_track_positions_models(self.cue_track_positions@.take(i + 1)) =~= cuepoint_cue_track_positions_models(self.cue_track_positions@.take(i as int)).push(FieldModel::Node { id: 0xB7, idx: (self.cue_track_positions@[i as int]).index, key: (self.cue_track_positions@[i as int]).id, children: (*(self.cue_track_positions@[i as int]).v).model() }));
            }
            i += 1;
        }
        proof {
            assert(self.cue_track_positions@.take(self.cue_track_positions@.len() as int) =~= self.cue_track_positions@);
        }
        out
    }

    /// A deep copy with the same children, positions, and keys.
    #[verifier::rlimit(100)]
    #[verifier::spinoff_prover]
    pub fn duplicate(&self) -> (r: Self)
        ensures
            r.raw_model() == self.raw_model(),
            r.size == self.size,
    {
        let r = CuePoint {
            size: self.size,
            cue_time: self.dup_cue_time(),
            cue_track_positions: self.dup_cue_track_positions(),
        };
        proof {
            reveal(CuePoint::raw_model);
            assert(r.raw_model() == self.raw_model());
        }
        r
    }
}

impl CuePoint {
    /// Serialise the whole element: body to a scratch buffer first, then
    /// the header with the now-known length, then the body.
    pub fn write_blocking(&self, w: &mut Vec<u8>) -> (r: Result<usize, MatroskaError>)
        ensures
            r is Ok <==> body_ok_rec(self.model()) && cat_bytes(self.model()).len() < 0xFFFFFFFFFFFFFF,
            r is Ok ==> final(w)@ == old(w)@ + node_frame_bytes(0xBB, cat_bytes(self.model()))
                && r->Ok_0 == node_frame_bytes(0xBB, cat_bytes(self.model())).len(),
            r is Err ==> final(w)@ == old(w)@ && r->Err_0 is InvalidVarIntMoreThanVintMax,
    {
        let mut buf: Vec<u8> = Vec::new();
        match self.write_body_blocking(&mut buf) {
            Ok(_) => {},
            Err(e) => {
                return Err(e);
            },
        }
        let start = w.len();
        match crate::io::write_element_id_size(w, 0xBB, buf.len() as u64) {
            Ok(_) => {},
            Err(e) => {
                return Err(e);
            },
        }
        w.append(&mut buf);
        Ok(w.len() - start)
    }

    /// Write this element's header with the given body size.
    pub fn write_header_blocking(&self, w: &mut Vec<u8>, size: u64) -> (r: Result<usize, MatroskaError>)
        ensures
            r is Ok <==> crate::io::size_encodable(size),
            r is Ok ==> final(w)@ == old(w)@ + crate::io::header_bytes(0xBB, size)
                && r->Ok_0 == crate::io::header_bytes(0xBB, size).len(),
            r is Err ==> final(w)@ == old(w)@ && r->Err_0 is InvalidVarIntMoreThanVintMax,
    {
        crate::io::write_element_id_size(w, 0xBB, size)
    }

    /// Write the body: every present child, in emission order.
    #[verifier::loop_isolation(false)]
    #[verifier::rlimit(60)]
    #[verifier::spinoff_prover]
    pub fn write_body_blocking(&self, w: &mut Vec<u8>) -> (r: Result<usize, MatroskaError>)
        ensures
            r is Ok <==> body_ok_rec(self.model()),
            r is Ok ==> final(w)@ == old(w)@ + cat_bytes(self.model())
                && r->Ok_0 == cat_bytes(self.model()).len(),
            r is Err ==> r->Err_0 is InvalidVarIntMoreThanVintMax,
    {
        let fields = self.elements();
        let start = w.len();
        let ghost ms = self.model();
        let mut i: usize = 0;
        while i < fields.len()
            invariant
                i <= fields@.len(),
                models_of::<CuePointFields>(fields@) == ms,
                w@ == old(w)@ + cat_bytes(ms.take(i as int)),
                body_ok_rec(ms.take(i as int)),
            decreases fields@.len() - i,
        {
            proof {
                assert(models_of::<CuePointFields>(fields@)[i as int] == ms[i as int]);
            }
            match fields[i].write_el(w) {
                Ok(_) => {},
                Err(e) => {
                    proof {
                        lemma_body_ok_forall(ms);
                    }
                    return Err(e);
                },
            }
            proof {
                assert(ms.take(i + 1) =~= ms.take(i as int).push(ms[i as int]));
                lemma_cat_snoc(ms.take(i as int), ms[i as int]);
            }
            i += 1;
        }
        proof {
            assert(ms.take(ms.len() as int) =~= ms);
            lemma_body_ok_forall(ms);
        }
        Ok(w.len() - start)
    }
}

/// One present child of a `CuePoint`, paired with its value.
#[derive(Debug)]
pub enum CuePointFields {
    CueTime(Ebml<u64>),
    CueTrackPositions(Ebml<CueTrackPositions>),
}

impl CuePointFields {
    /// The child's element ID and its two ordering slots.
    #[verifier::rlimit(60)]
    #[verifier::spinoff_prover]
    pub fn index(&self) -> (r: (EbmlId, Option<u64>, u64))
        ensures
            r.0.spec_u64() == self.model().eid(),
            r.1 == self.model().idx(),
            r.2 == self.model().key(),
    {
        match self {
            Self::CueTime(val) => (EbmlId::CueTime, val.index, val.id),
            Self::CueTrackPositions(val) => (EbmlId::CueTrackPositions, val.index, val.id),
        }
    }

    /// Write this child's frame.
    #[verifier::rlimit(60)]
    #[verifier::spinoff_prover]
    pub fn write_el(&self, w: &mut Vec<u8>) -> (r: Result<usize, MatroskaError>)
        ensures
            r is Ok <==> el_ok(self.model()),
            r is Ok ==> final(w)@ == old(w)@ + el_bytes(self.model())
                && r->Ok_0 == el_bytes(self.model()).len(),
            r is Err ==> final(w)@ == old(w)@ && r->Err_0 is InvalidVarIntMoreThanVintMax,
    {
        match self {
            Self::CueTime(val) => crate::io::write_el_uint(w, 0xB3, &*val.v),
            Self::CueTrackPositions(val) => (*val.v).write_blocking(w),
        }
    }
}

impl EbmlField for CuePointFields {
    open spec fn model(&self) -> FieldModel {
        match self {
            Self::CueTime(e) => FieldModel::UInt { id: 0xB3, idx: e.index, key: e.id, v: *e.v },
            Self::CueTrackPositions(e) => FieldModel::Node { id: 0xB7, idx: e.index, key: e.id, children: (*e.v).model() },
        }
    }

    fn sort_key(&self) -> (r: (Option<u64>, u64)) {
        match self {
            Self::CueTime(e) => (e.index, e.id),
            Self::CueTrackPositions(e) => (e.index, e.id),
        }
    }
}

/// The `CueTrackPositions` structural element.
#[derive(Debug)]
pub struct CueTrackPositions {
    pub size: u64,
    pub cue_track: Ebml<u64>,
    pub cue_cluster_position: Ebml<u64>,
    pub cue_relative_position: Option<Ebml<u64>>,
    pub cue_duration: Option<Ebml<u64>>,
    pub cue_block_number: Option<Ebml<u64>>,
    pub cue_codec_state: Ebml<u64>,
    pub cue_reference: Vec<Ebml<CueReference>>,
}

/// The models of the `cue_reference` children of a `CueTrackPositions`.
pub open spec fn cuetrackpositions_cue_reference_models(s: Seq<Ebml<CueReference>>) -> Seq<FieldModel> {
    s.map_values(|e: Ebml<CueReference>| FieldModel::Node { id: 0xDB, idx: e.index, key: e.id, children: (*e.v).model() })
}

impl CueTrackPositions {
    /// The models of the children, in declaration order.
    #[verifier::opaque]
    pub open spec fn raw_model(self) -> Seq<FieldModel>
    {
        seq![FieldModel::UInt { id: 0xF7, idx: self.cue_track.index, key: self.cue_track.id, v: *self.cue_track.v }]
            + seq![FieldModel::UInt { id: 0xF1, idx: self.cue_cluster_position.index, key: self.cue_cluster_position.id, v: *self.cue_cluster_position.v }]
            + (match self.cue_relative_position { Some(e) => seq![FieldModel::UInt { id: 0xF0, idx: e.index, key: e.id, v: *e.v }], None => Seq::empty() })
            + (match self.cue_duration { Some(e) => seq![FieldModel::UInt { id: 0xB2, idx: e.index, key: e.id, v: *e.v }], None => Seq::empty() })
            + (match self.cue_block_number { Some(e) => seq![FieldModel::UInt { id: 0x5378, idx: e.index, key: e.id, v: *e.v }], None => Seq::empty() })
            + seq![FieldModel::UInt { id: 0xEA, idx: self.cue_codec_state.index, key: self.cue_codec_state.id, v: *self.cue_codec_state.v }]
            + cuetrackpositions_cue_reference_models(self.cue_reference@)
    }

    /// The children in emission order.
    #[verifier::opaque]
    pub open spec fn model(self) -> Seq<FieldModel>
    {
        sort_fields_spec(self.raw_model())
    }

    /// Append the `cue_track` child values to a field run.
    #[verifier::loop_isolation(false)]
    fn push_cue_track(&self, v: &mut Vec<CueTrackPositionsFields>)
        ensures
            models_of::<CueTrackPositionsFields>(final(v)@) == models_of::<CueTrackPositionsFields>(old(v)@) + seq![FieldModel::UInt { id: 0xF7, idx: self.cue_track.index, key: self.cue_track.id, v: *self.cue_track.v }],
    {
        let ghost prevv = v@;
        v.push(CueTrackPositionsFields::CueTrack(crate::dup_ebml_copy(&self.cue_track)));
        proof {
            assert(models_of::<CueTrackPositionsFields>(v@) =~= models_of::<CueTrackPositionsFields>(prevv).push(v@.last().model()));
            assert(models_of::<CueTrackPositionsFields>(prevv).push(v@.last().model()) =~= models_of::<CueTrackPositionsFields>(prevv) + seq![FieldModel::UInt { id: 0xF7, idx: self.cue_track.index, key: self.cue_track.id, v: *self.cue_track.v }]);
        }
    }

    /// Append the `cue_cluster_position` child values to a field run.
    #[verifier::loop_isolation(false)]
    fn push_cue_cluster_position(&self, v: &mut Vec<CueTrackPositionsFields>)
        ensures
            models_of::<CueTrackPositionsFields>(final(v)@) == models_of::<CueTrackPositionsFields>(old(v)@) + seq![FieldModel::UInt { id: 0xF1, idx: self.cue_cluster_position.index, key: self.cue_cluster_position.id, v: *self.cue_cluster_position.v }],
    {
        let ghost prevv = v@;
        v.push(CueTrackPositionsFields::CueClusterPosition(crate::dup_ebml_copy(&self.cue_cluster_position)));
        proof {
            assert(models_of::<CueTrackPositionsFields>(v@) =~= models_of::<CueTrackPositionsFields>(prevv).push(v@.last().model()));
            assert(models_of::<CueTrackPositionsFields>(prevv).push(v@.last().model()) =~= models_of::<CueTrackPositionsFields>(prevv) + seq![FieldModel::UInt { id: 0xF1, idx: self.cue_cluster_position.index, key: self.cue_cluster_position.id, v: *self.cue_cluster_position.v }]);
        }
    }

    /// Append the `cue_relative_position` child values to a field run.
    #[verifier::loop_isolation(false)]
    fn push_cue_relative_position(&self, v: &mut Vec<CueTrackPositionsFields>)
        ensures
            models_of::<CueTrackPositionsFields>(final(v)@) == models_of::<CueTrackPositionsFields>(old(v)@) + (match &self.cue_relative_position { Some(e) => seq![FieldModel::UInt { id: 0xF0, idx: e.index, key: e.id, v: *e.v }], None => Seq::empty() }),
    {
        match &self.cue_relative_position {
            Some(e) => {
                let ghost prevv = v@;
                v.push(CueTrackPositionsFields::CueRelativePosition(crate::dup_ebml_copy(e)));
                proof {
                    assert(models_of::<CueTrackPositionsFields>(v@) =~= models_of::<CueTrackPositionsFields>(prevv).push(v@.last().model()));
                    assert(models_of::<CueTrackPositionsFields>(prevv).push(v@.last().model()) =~= models_of::<CueTrackPositionsFields>(prevv) + (match &self.cue_relative_position { Some(e) => seq![FieldModel::UInt { id: 0xF0, idx: e.index, key: e.id, v: *e.v }], None => Seq::empty() }));
                }
            },
            None => {
                proof {
                    assert(models_of::<CueTrackPositionsFields>(v@) =~= models_of::<CueTrackPositionsFields>(v@) + (match &self.cue_relative_position { Some(e) => seq![FieldModel::UInt { id: 0xF0, idx: e.index, key: e.id, v: *e.v }], None => Seq::empty() }));
                }
            },
        }
    }

    /// Append the `cue_duration` child values to a field run.
    #[verifier::loop_isolation(false)]
    fn push_cue_duration(&self, v: &mut Vec<CueTrackPositionsFields>)
        ensures
            models_of::<CueTrackPositionsFields>(final(v)@) == models_of::<CueTrackPositionsFields>(old(v)@) + (match &self.cue_duration { Some(e) => seq![FieldModel::UInt { id: 0xB2, idx: e.index, key: e.id, v: *e.v }], None => Seq::empty() }),
    {
        match &self.cue_duration {
            Some(e) => {
                let ghost prevv = v@;
                v.push(CueTrackPositionsFields::CueDuration(crate::dup_ebml_copy(e)));
                proof {
                    assert(models_of::<CueTrackPositionsFields>(v@) =~= models_of::<CueTrackPositionsFields>(prevv).push(v@.last().model()));
                    assert(models_of::<CueTrackPositionsFields>(prevv).push(v@.last().model()) =~= models_of::<CueTrackPositionsFields>(prevv) + (match &self.cue_duration { Some(e) => seq![FieldModel::UInt { id: 0xB2, idx: e.index, key: e.id, v: *e.v }], None => Seq::empty() }));
                }
            },
            None => {
                proof {
                    assert(models_of::<CueTrackPositionsFields>(v@) =~= models_of::<CueTrackPositionsFields>(v@) + (match &self.cue_duration { Some(e) => seq![FieldModel::UInt { id: 0xB2, idx: e.index, key: e.id, v: *e.v }], None => Seq::empty() }));
                }
            },
        }
    }

    /// Append the `cue_block_number` child values to a field run.
    #[verifier::loop_isolation(false)]
    fn push_cue_block_number(&self, v: &mut Vec<CueTrackPositionsFields>)
        ensures
            models_of::<CueTrackPositionsFields>(final(v)@) == models_of::<CueTrackPositionsFields>(old(v)@) + (match &self.cue_block_number { Some(e) => seq![FieldModel::UInt { id: 0x5378, idx: e.index, key: e.id, v: *e.v }], None => Seq::empty() }),
    {
        match &self.cue_block_number {
            Some(e) => {
                let ghost prevv = v@;
                v.push(CueTrackPositionsFields::CueBlockNumber(crate::dup_ebml_copy(e)));
                proof {
                    assert(models_of::<CueTrackPositionsFields>(v@) =~= models_of::<CueTrackPositionsFields>(prevv).push(v@.last().model()));
                    assert(models_of::<CueTrackPositionsFields>(prevv).push(v@.last().model()) =~= models_of::<CueTrackPositionsFields>(prevv) + (match &self.cue_block_number { Some(e) => seq![FieldModel::UInt { id: 0x5378, idx: e.index, key: e.id, v: *e.v }], None => Seq::empty() }));
                }
            },
            None => {
                proof {
                    assert(models_of::<CueTrackPositionsFields>(v@) =~= models_of::<CueTrackPositionsFields>(v@) + (match &self.cue_block_number { Some(e) => seq![FieldModel::UInt { id: 0x5378, idx: e.index, key: e.id, v: *e.v }], None => Seq::empty() }));
                }
            },
        }
    }

    /// Append the `cue_codec_state` child values to a field run.
    #[verifier::loop_isolation(false)]
    fn push_cue_codec_state(&self, v: &mut Vec<CueTrackPositionsFields>)
        ensures
            models_of::<CueTrackPositionsFields>(final(v)@) == models_of::<CueTrackPositionsFields>(old(v)@) + seq![FieldModel::UInt { id: 0xEA, idx: self.cue_codec_state.index, key: self.cue_codec_state.id, v: *self.cue_codec_state.v }],
    {
        let ghost prevv = v@;
        v.push(CueTrackPositionsFields::CueCodecState(crate::dup_ebml_copy(&self.cue_codec_state)));
        proof {
            assert(models_of::<CueTrackPositionsFields>(v@) =~= models_of::<CueTrackPositionsFields>(prevv).push(v@.last().model()));
            assert(models_of::<CueTrackPositionsFields>(prevv).push(v@.last().model()) =~= models_of::<CueTrackPositionsFields>(prevv) + seq![FieldModel::UInt { id: 0xEA, idx: self.cue_codec_state.index, key: self.cue_codec_state.id, v: *self.cue_codec_state.v }]);
        }
    }

    /// Append the `cue_reference` child values to a field run.
    #[verifier::loop_isolation(false)]
    fn push_cue_reference(&self, v: &mut Vec<CueTrackPositionsFields>)
        ensures
            models_of::<CueTrackPositionsFields>(final(v)@) == models_of::<CueTrackPositionsFields>(old(v)@) + cuetrackpositions_cue_reference_models(self.cue_reference@),
    {
        let ghost base = models_of::<CueTrackPositionsFields>(v@);
        let mut i: usize = 0;
        while i < self.cue_reference.len()
            invariant
                i <= self.cue_reference@.len(),
                models_of::<CueTrackPositionsFields>(v@) == base + cuetrackpositions_cue_reference_models(self.cue_reference@.take(i as int)),
            decreases self.cue_reference@.len() - i,
        {
            let e = &self.cue_reference[i];
            let d = (&*e.v).duplicate();
            proof {
                reveal(CueReference::model);
                assert(d.model() == (*e.v).model());
            }
            let ghost prevv = v@;
            v.push(CueTrackPositionsFields::CueReference(Ebml { index: e.index, v: Box::new(d), id: e.id }));
            proof {
                assert(self.cue_reference@.take(i + 1) =~= self.cue_reference@.take(i as int).push(self.cue_reference@[i as int]));
                assert(models_of::<CueTrackPositionsFields>(v@) =~= models_of::<CueTrackPositionsFields>(prevv).push(v@.last().model()));
                assert(cuetrackpositions_cue_reference_models(self.cue_reference@.take(i + 1)) =~= cuetrackpositions_cue_reference_models(self.cue_reference@.take(i as int)).push(v@.last().model()));
                assert(base + cuetrackpositions_cue_reference_models(self.cue_reference@.take(i + 1)) =~= (base + cuetrackpositions_cue_reference_models(self.cue_reference@.take(i as int))).push(v@.last().model()));
            }
            i += 1;
        }
        proof {
            assert(self.cue_reference@.take(self.cue_reference@.len() as int) =~= self.cue_reference@);
        }
    }

    /// The present children, each paired with its ID, in emission order.
    #[verifier::rlimit(100)]
    #[verifier::spinoff_prover]
    pub fn elements(&self) -> (r: Vec<CueTrackPositionsFields>)
        ensures
            models_of::<CueTrackPositionsFields>(r@) == self.model(),
    {
        let mut v: Vec<CueTrackPositionsFields> = Vec::new();
        proof {
            assert(models_of::<CueTrackPositionsFields>(v@) =~= Seq::<FieldModel>::empty());
        }
        self.push_cue_track(&mut v);
        self.push_cue_cluster_position(&mut v);
        self.push_cue_relative_position(&mut v);
        self.push_cue_duration(&mut v);
        self.push_cue_block_number(&mut v);
        self.push_cue_codec_state(&mut v);
        self.push_cue_reference(&mut v);
        proof {
            reveal(CueTrackPositions::raw_model);
            reveal(CueTrackPositions::model);
            assert(Seq::<FieldModel>::empty() + seq![FieldModel::UInt { id: 0xF7, idx: self.cue_track.index, key: self.cue_track.id, v: *self.cue_track.v }] =~= seq![FieldModel::UInt { id: 0xF7, idx: self.cue_track.index, key: self.cue_track.id, v: *self.cue_track.v }]);
            assert(models_of::<CueTrackPositionsFields>(v@) == self.raw_model());
        }
        sort_fields(v)
    }

    /// A deep copy of the `cue_track` slot.
    #[verifier::loop_isolation(false)]
    fn dup_cue_track(&self) -> (r: Ebml<u64>)
        ensures
            seq![FieldModel::UInt { id: 0xF7, idx: r.index, key: r.id, v: *r.v }] == seq![FieldModel::UInt { id: 0xF7, idx: self.cue_track.index, key: self.cue_track.id, v: *self.cue_track.v }],
    {
        crate::dup_ebml_copy(&self.cue_track)
    }

    /// A deep copy of the `cue_cluster_position` slot.
    #[verifier::loop_isolation(false)]
    fn dup_cue_cluster_position(&self) -> (r: Ebml<u64>)
        ensures
            seq![FieldModel::UInt { id: 0xF1, idx: r.index, key: r.id, v: *r.v }] == seq![FieldModel::UInt { id: 0xF1, idx: self.cue_cluster_position.index, key: self.cue_cluster_position.id, v: *self.cue_cluster_position.v }],
    {
        crate::dup_ebml_copy(&self.cue_cluster_position)
    }

    /// A deep copy of the `cue_relative_position` slot.
    #[verifier::loop_isolation(false)]
    fn dup_cue_relative_position(&self) -> (r: Option<Ebml<u64>>)
        ensures
            (match &r { Some(e) => seq![FieldModel::UInt { id: 0xF0, idx: e.index, key: e.id, v: *e.v }], None => Seq::empty() }) == (match &self.cue_relative_position { Some(e) => seq![FieldModel::UInt { id: 0xF0, idx: e.index, key: e.id, v: *e.v }], None => Seq::empty() }),
    {
        match &self.cue_relative_position {
            Some(e) => Some(crate::dup_ebml_copy(e)),
            None => None,
        }
    }

    /// A deep copy of the `cue_duration` slot.
    #[verifier::loop_isolation(false)]
    fn dup_cue_duration(&self) -> (r: Option<Ebml<u64>>)
        ensures
            (match &r { Some(e) => seq![FieldModel::UInt { id: 0xB2, idx: e.index, key: e.id, v: *e.v }], None => Seq::empty() }) == (match &self.cue_duration { Some(e) => seq![FieldModel::UInt { id: 0xB2, idx: e.index, key: e.id, v: *e.v }], None => Seq::empty() }),
    {
        match &self.cue_duration {
            Some(e) => Some(crate::dup_ebml_copy(e)),
            None => None,
        }
    }

    /// A deep copy of the `cue_block_number` slot.
    #[verifier::loop_isolation(false)]
    fn dup_cue_block_number(&self) -> (r: Option<Ebml<u64>>)
        ensures
            (match &r { Some(e) => seq![FieldModel::UInt { id: 0x5378, idx: e.index, key: e.id, v: *e.v }], None => Seq::empty() }) == (match &self.cue_block_number { Some(e) => seq![FieldModel::UInt { id: 0x5378, idx: e.index, key: e.id, v: *e.v }], None => Seq::empty() }),
    {
        match &self.cue_block_number {
            Some(e) => Some(crate::dup_ebml_copy(e)),
            None => None,
        }
    }

    /// A deep copy of the `cue_codec_state` slot.
    #[verifier::loop_isolation(false)]
    fn dup_cue_codec_state(&self) -> (r: Ebml<u64>)
        ensures
            seq![FieldModel::UInt { id: 0xEA, idx: r.index, key: r.id, v: *r.v }] == seq![FieldModel::UInt { id: 0xEA, idx: self.cue_codec_state.index, key: self.cue_codec_state.id, v: *self.cue_codec_state.v }],
    {
        crate::dup_ebml_copy(&self.cue_codec_state)
    }

    /// A deep copy of the `cue_reference` slot.
    #[verifier::loop_isolation(false)]
    fn dup_cue_reference(&self) -> (r: Vec<Ebml<CueReference>>)
        ensures
            cuetrackpositions_cue_reference_models(r@) == cuetrackpositions_cue_reference_models(self.cue_reference@),
    {
        let mut out: Vec<Ebml<CueReference>> = Vec::new();
        let mut i: usize = 0;
        while i < self.cue_reference.len()
            invariant
                i <= self.cue_reference@.len(),
                cuetrackpositions_cue_reference_models(out@) == cuetrackpositions_cue_reference_models(self.cue_reference@.take(i as int)),
            decreases self.cue_reference@.len() - i,
        {
            let e = &self.cue_reference[i];
            let d = (&*e.v).duplicate();
            proof {
                reveal(CueReference::model);
                assert(d.model() == (*e.v).model());
            }
            let ghost prevo = out@;
            out.push(Ebml { index: e.index, v: Box::new(d), id: e.id });
            proof {
                assert(self.cue_reference@.take(i + 1) =~= self.cue_reference@.take(i as int).push(self.cue_reference@[i as int]));
                assert(out@.drop_last() =~= prevo);
                assert(self.cue_reference@.take(i + 1).drop_last() =~= self.cue_reference@.take(i as int));
                assert(FieldModel::Node { id: 0xDB, idx: (out@.last()).index, key: (out@.last()).id, children: (*(out@.last()).v).model() } == FieldModel::Node { id: 0xDB, idx: (self.cue_reference@[i as int]).index, key: (self.cue_reference@[i as int]).id, children: (*(self.cue_reference@[i as int]).v).model() });
                assert(cuetrackpositions_cue_reference_models(out@) =~= cuetrackpositions_cue_reference_models(prevo).push(FieldModel::Node { id: 0xDB, idx: (out@.last()).index, key: (out@.last()).id, children: (*(out@.last()).v).model() }));
                assert(cuetrackpositions_cue_reference_models(self.cue_reference@.take(i + 1)) =~= cuetrackpositions_cue_reference_models(self.cue_reference@.take(i as int)).push(FieldModel::Node { id: 0xDB, idx: (self.cue_reference@[i as int]).index, key: (self.cue_reference@[i as int]).id, children: (*(self.cue_reference@[i as int]).v).model() }));
            }
            i += 1;
        }
        proof {
            assert(self.cue_reference@.take(self.cue_reference@.len() as int) =~= self.cue_reference@);
        }
        out
    }

    /// A deep copy with the same children, positions, and keys.
    #[verifier::rlimit(100)]
    #[verifier::spinoff_prover]
    pub fn duplicate(&self) -> (r: Self)
        ensures
            r.raw_model() == self.raw_model(),
            r.size == self.size,
    {
        let r = CueTrackPositions {
            size: self.size,
            cue_track: self.dup_cue_track(),
            cue_cluster_position: self.dup_cue_cluster_position(),
            cue_relative_position: self.dup_cue_relative_position(),
            cue_duration: self.dup_cue_duration(),
            cue_block_number: self.dup_cue_block_number(),
            cue_codec_state: self.dup_cue_codec_state(),
            cue_reference: self.dup_cue_reference(),
        };
        proof {
            reveal(CueTrackPositions::raw_model);
            assert(r.raw_model() == self.raw_model());
        }
        r
    }
}

impl CueTrackPositions {
    /// Serialise the whole element: body to a scratch buffer first, then
    /// the header with the now-known length, then the body.
    pub fn write_blocking(&self, w: &mut Vec<u8>) -> (r: Result<usize, MatroskaError>)
        ensures
            r is Ok <==> body_ok_rec(self.model()) && cat_bytes(self.model()).len() < 0xFFFFFFFFFFFFFF,
            r is Ok ==> final(w)@ == old(w)@ + node_frame_bytes(0xB7, cat_bytes(self.model()))
                && r->Ok_0 == node_frame_bytes(0xB7, cat_bytes(self.model())).len(),
            r is Err ==> final(w)@ == old(w)@ && r->Err_0 is InvalidVarIntMoreThanVintMax,
    {
        let mut buf: Vec<u8> = Vec::new();
        match self.write_body_blocking(&mut buf) {
            Ok(_) => {},
            Err(e) => {
                return Err(e);
            },
        }
        let start = w.len();
        match crate::io::write_element_id_size(w, 0xB7, buf.len() as u64) {
            Ok(_) => {},
            Err(e) => {
                return Err(e);
            },
        }
        w.append(&mut buf);
        Ok(w.len() - start)
    }

    /// Write this element's header with the given body size.
    pub fn write_header_blocking(&self, w: &mut Vec<u8>, size: u64) -> (r: Result<usize, MatroskaError>)
        ensures
            r is Ok <==> crate::io::size_encodable(size),
            r is Ok ==> final(w)@ == old(w)@ + crate::io::header_bytes(0xB7, size)
                && r->Ok_0 == crate::io::header_bytes(0xB7, size).len(),
            r is Err ==> final(w)@ == old(w)@ && r->Err_0 is InvalidVarIntMoreThanVintMax,
    {
        crate::io::write_element_id_size(w, 0xB7, size)
    }

    /// Write the body: every present child, in emission order.
    #[verifier::loop_isolation(false)]
    #[verifier::rlimit(60)]
    #[verifier::spinoff_prover]
    pub fn write_body_blocking(&self, w: &mut Vec<u8>) -> (r: Result<usize, MatroskaError>)
        ensures
            r is Ok <==> body_ok_rec(self.model()),
            r is Ok ==> final(w)@ == old(w)@ + cat_bytes(self.model())
                && r->Ok_0 == cat_bytes(self.model()).len(),
            r is Err ==> r->Err_0 is InvalidVarIntMoreThanVintMax,
    {
        let fields = self.elements();
        let start = w.len();
        let ghost ms = self.model();
        let mut i: usize = 0;
        while i < fields.len()
            invariant
                i <= fields@.len(),
                models_of::<CueTrackPositionsFields>(fields@) == ms,
                w@ == old(w)@ + cat_bytes(ms.take(i as int)),
                body_ok_rec(ms.take(i as int)),
            decreases fields@.len() - i,
        {
            proof {
                assert(models_of::<CueTrackPositionsFields>(fields@)[i as int] == ms[i as int]);
            }
            match fields[i].write_el(w) {
                Ok(_) => {},
                Err(e) => {
                    proof {
                        lemma_body_ok_forall(ms);
                    }
                    return Err(e);
                },
            }
            proof {
                assert(ms.take(i + 1) =~= ms.take(i as int).push(ms[i as int]));
                lemma_cat_snoc(ms.take(i as int), ms[i as int]);
            }
            i += 1;
        }
        proof {
            assert(ms.take(ms.len() as int) =~= ms);
            lemma_body_ok_forall(ms);
        }
        Ok(w.len() - start)
    }
}

/// One present child of a `CueTrackPositions`, paired with its value.
#[derive(Debug)]
pub enum CueTrackPositionsFields {
    CueTrack(Ebml<u64>),
    CueClusterPosition(Ebml<u64>),
    CueRelativePosition(Ebml<u64>),
    CueDuration(Ebml<u64>),
    CueBlockNumber(Ebml<u64>),
    CueCodecState(Ebml<u64>),
    CueReference(Ebml<CueReference>),
}

impl CueTrackPositionsFields {
    /// The child's element ID and its two ordering slots.
    #[verifier::rlimit(60)]
    #[verifier::spinoff_prover]
    pub fn index(&self) -> (r: (EbmlId, Option<u64>, u64))
        ensures
            r.0.spec_u64() == self.model().eid(),
            r.1 == self.model().idx(),
            r.2 == self.model().key(),
    {
        match self {
            Self::CueTrack(val) => (EbmlId::CueTrack, val.index, val.id),
            Self::CueClusterPosition(val) => (EbmlId::CueClusterPosition, val.index, val.id),
            Self::CueRelativePosition(val) => (EbmlId::CueRelativePosition, val.index, val.id),
            Self::CueDuration(val) => (EbmlId::CueDuration, val.index, val.id),
            Self::CueBlockNumber(val) => (EbmlId::CueBlockNumber, val.index, val.id),
            Self::CueCodecState(val) => (EbmlId::CueCodecState, val.index, val.id),
            Self::CueReference(val) => (EbmlId::CueReference, val.index, val.id),
        }
    }

    /// Write this child's frame.
    #[verifier::rlimit(60)]
    #[verifier::spinoff_prover]
    pub fn write_el(&self, w: &mut Vec<u8>) -> (r: Result<usize, MatroskaError>)
        ensures
            r is Ok <==> el_ok(self.model()),
            r is Ok ==> final(w)@ == old(w)@ + el_bytes(self.model())
                && r->Ok_0 == el_bytes(self.model()).len(),
            r is Err ==> final(w)@ == old(w)@ && r->Err_0 is InvalidVarIntMoreThanVintMax,
    {
        match self {
            Self::CueTrack(val) => crate::io::write_el_uint(w, 0xF7, &*val.v),
            Self::CueClusterPosition(val) => crate::io::write_el_uint(w, 0xF1, &*val.v),
            Self::CueRelativePosition(val) => crate::io::write_el_uint(w, 0xF0, &*val.v),
            Self::CueDuration(val) => crate::io::write_el_uint(w, 0xB2, &*val.v),
            Self::CueBlockNumber(val) => crate::io::write_el_uint(w, 0x5378, &*val.v),
            Self::CueCodecState(val) => crate::io::write_el_uint(w, 0xEA, &*val.v),
            Self::CueReference(val) => (*val.v).write_blocking(w),
        }
    }
}

impl EbmlField for CueTrackPositionsFields {
    open spec fn model(&self) -> FieldModel {
        match self {
            Self::CueTrack(e) => FieldModel::UInt { id: 0xF7, idx: e.index, key: e.id, v: *e.v },
            Self::CueClusterPosition(e) => FieldModel::UInt { id: 0xF1, idx: e.index, key: e.id, v: *e.v },
            Self::CueRelativePosition(e) => FieldModel::UInt { id: 0xF0, idx: e.index, key: e.id, v: *e.v },
            Self::CueDuration(e) => FieldModel::UInt { id: 0xB2, idx: e.index, key: e.id, v: *e.v },
            Self::CueBlockNumber(e) => FieldModel::UInt { id: 0x5378, idx: e.index, key: e.id, v: *e.v },
            Self::CueCodecState(e) => FieldModel::UInt { id: 0xEA, idx: e.index, key: e.id, v: *e.v },
            Self::CueReference(e) => FieldModel::Node { id: 0xDB, idx: e.index, key: e.id, children: (*e.v).model() },
        }
    }

    fn sort_key(&self) -> (r: (Option<u64>, u64)) {
        match self {
            Self::CueTrack(e) => (e.index, e.id),
            Self::CueClusterPosition(e) => (e.index, e.id),
            Self::CueRelativePosition(e) => (e.index, e.id),
            Self::CueDuration(e) => (e.index, e.id),
            Self::CueBlockNumber(e) => (e.index, e.id),
            Self::CueCodecState(e) => (e.index, e.id),
            Self::CueReference(e) => (e.index, e.id),
        }
    }
}

/// The `CueReference` structural element.
#[derive(Debug)]
pub struct CueReference {
    pub size: u64,
    pub cue_ref_time: Ebml<u64>,
    pub cue_ref_cluster: Ebml<u64>,
    pub cue_ref_number: Option<Ebml<u64>>,
    pub cue_ref_codec_state: Option<Ebml<u64>>,
}

impl CueReference {
    /// The models of the children, in declaration order.
    #[verifier::opaque]
    pub open spec fn raw_model(self) -> Seq<FieldModel>
    {
        seq![FieldModel::UInt { id: 0x96, idx: self.cue_ref_time.index, key: self.cue_ref_time.id, v: *self.cue_ref_time.v }]
            + seq![FieldModel::UInt { id: 0x97, idx: self.cue_ref_cluster.index, key: self.cue_ref_cluster.id, v: *self.cue_ref_cluster.v }]
            + (match self.cue_ref_number { Some(e) => seq![FieldModel::UInt { id: 0x535F, idx: e.index, key: e.id, v: *e.v }], None => Seq::empty() })
            + (match self.cue_ref_codec_state { Some(e) => seq![FieldModel::UInt { id: 0xEB, idx: e.index, key: e.id, v: *e.v }], None => Seq::empty() })
    }

    /// The children in emission order.
    #[verifier::opaque]
    pub open spec fn model(self) -> Seq<FieldModel>
    {
        sort_fields_spec(self.raw_model())
    }

    /// Append the `cue_ref_time` child values to a field run.
    #[verifier::loop_isolation(false)]
    fn push_cue_ref_time(&self, v: &mut Vec<CueReferenceFields>)
        ensures
            models_of::<CueReferenceFields>(final(v)@) == models_of::<CueReferenceFields>(old(v)@) + seq![FieldModel::UInt { id: 0x96, idx: self.cue_ref_time.index, key: self.cue_ref_time.id, v: *self.cue_ref_time.v }],
    {
        let ghost prevv = v@;
        v.push(CueReferenceFields::CueRefTime(crate::dup_ebml_copy(&self.cue_ref_time)));
        proof {
            assert(models_of::<CueReferenceFields>(v@) =~= models_of::<CueReferenceFields>(prevv).push(v@.last().model()));
            assert(models_of::<CueReferenceFields>(prevv).push(v@.last().model()) =~= models_of::<CueReferenceFields>(prevv) + seq![FieldModel::UInt { id: 0x96, idx: self.cue_ref_time.index, key: self.cue_ref_time.id, v: *self.cue_ref_time.v }]);
        }
    }

    /// Append the `cue_ref_cluster` child values to a field run.
    #[verifier::loop_isolation(false)]
    fn push_cue_ref_cluster(&self, v: &mut Vec<CueReferenceFields>)
        ensures
            models_of::<CueReferenceFields>(final(v)@) == models_of::<CueReferenceFields>(old(v)@) + seq![FieldModel::UInt { id: 0x97, idx: self.cue_ref_cluster.index, key: self.cue_ref_cluster.id, v: *self.cue_ref_cluster.v }],
    {
        let ghost prevv = v@;
        v.push(CueReferenceFields::CueRefCluster(crate::dup_ebml_copy(&self.cue_ref_cluster)));
        proof {
            assert(models_of::<CueReferenceFields>(v@) =~= models_of::<CueReferenceFields>(prevv).push(v@.last().model()));
            assert(models_of::<CueReferenceFields>(prevv).push(v@.last().model()) =~= models_of::<CueReferenceFields>(prevv) + seq![FieldModel::UInt { id: 0x97, idx: self.cue_ref_cluster.index, key: self.cue_ref_cluster.id, v: *self.cue_ref_cluster.v }]);
        }
    }

    /// Append the `cue_ref_number` child values to a field run.
    #[verifier::loop_isolation(false)]
    fn push_cue_ref_number(&self, v: &mut Vec<CueReferenceFields>)
        ensures
            models_of::<CueReferenceFields>(final(v)@) == models_of::<CueReferenceFields>(old(v)@) + (match &self.cue_ref_number { Some(e) => seq![FieldModel::UInt { id: 0x535F, idx: e.index, key: e.id, v: *e.v }], None => Seq::empty() }),
    {
        match &self.cue_ref_number {
            Some(e) => {
                let ghost prevv = v@;
                v.push(CueReferenceFields::CueRefNumber(crate::dup_ebml_copy(e)));
                proof {
                    assert(models_of::<CueReferenceFields>(v@) =~= models_of::<CueReferenceFields>(prevv).push(v@.last().model()));
                    assert(models_of::<CueReferenceFields>(prevv).push(v@.last().model()) =~= models_of::<CueReferenceFields>(prevv) + (match &self.cue_ref_number { Some(e) => seq![FieldModel::UInt { id: 0x535F, idx: e.index, key: e.id, v: *e.v }], None => Seq::empty() }));
                }
            },
            None => {
                proof {
                    assert(models_of::<CueReferenceFields>(v@) =~= models_of::<CueReferenceFields>(v@) + (match &self.cue_ref_number { Some(e) => seq![FieldModel::UInt { id: 0x535F, idx: e.index, key: e.id, v: *e.v }], None => Seq::empty() }));
                }
            },
        }
    }

    /// Append the `cue_ref_codec_state` child values to a field run.
    #[verifier::loop_isolation(false)]
    fn push_cue_ref_codec_state(&self, v: &mut Vec<CueReferenceFields>)
        ensures
            models_of::<CueReferenceFields>(final(v)@) == models_of::<CueReferenceFields>(old(v)@) + (match &self.cue_ref_codec_state { Some(e) => seq![FieldModel::UInt { id: 0xEB, idx: e.index, key: e.id, v: *e.v }], None => Seq::empty() }),
    {
        match &self.cue_ref_codec_state {
            Some(e) => {
                let ghost prevv = v@;
                v.push(CueReferenceFields::CueRefCodecState(crate::dup_ebml_copy(e)));
                proof {
                    assert(models_of::<CueReferenceFields>(v@) =~= models_of::<CueReferenceFields>(prevv).push(v@.last().model()));
                    assert(models_of::<CueReferenceFields>(prevv).push(v@.last().model()) =~= models_of::<CueReferenceFields>(prevv) + (match &self.cue_ref_codec_state { Some(e) => seq![FieldModel::UInt { id: 0xEB, idx: e.index, key: e.id, v: *e.v }], None => Seq::empty() }));
                }
            },
            None => {
                proof {
                    assert(models_of::<CueReferenceFields>(v@) =~= models_of::<CueReferenceFields>(v@) + (match &self.cue_ref_codec_state { Some(e) => seq![FieldModel::UInt { id: 0xEB, idx: e.index, key: e.id, v: *e.v }], None => Seq::empty() }));
                }
            },
        }
    }

    /// The present children, each paired with its ID, in emission order.
    #[verifier::rlimit(100)]
    #[verifier::spinoff_prover]
    pub fn elements(&self) -> (r: Vec<CueReferenceFields>)
        ensures
            models_of::<CueReferenceFields>(r@) == self.model(),
    {
        let mut v: Vec<CueReferenceFields> = Vec::new();
        proof {
            assert(models_of::<CueReferenceFields>(v@) =~= Seq::<FieldModel>::empty());
        }
        self.push_cue_ref_time(&mut v);
        self.push_cue_ref_cluster(&mut v);
        self.push_cue_ref_number(&mut v);
        self.push_cue_ref_codec_state(&mut v);
        proof {
            reveal(CueReference::raw_model);
            reveal(CueReference::model);
            assert(Seq::<FieldModel>::empty() + seq![FieldModel::UInt { id: 0x96, idx: self.cue_ref_time.index, key: self.cue_ref_time.id, v: *self.cue_ref_time.v }] =~= seq![FieldModel::UInt { id: 0x96, idx: self.cue_ref_time.index, key: self.cue_ref_time.id, v: *self.cue_ref_time.v }]);
            assert(models_of::<CueReferenceFields>(v@) == self.raw_model());
        }
        sort_fields(v)
    }

    /// A deep copy of the `cue_ref_time` slot.
    #[verifier::loop_isolation(false)]
    fn dup_cue_ref_time(&self) -> (r: Ebml<u64>)
        ensures
            seq![FieldModel::UInt { id: 0x96, idx: r.index, key: r.id, v: *r.v }] == seq![FieldModel::UInt { id: 0x96, idx: self.cue_ref_time.index, key: self.cue_ref_time.id, v: *self.cue_ref_time.v }],
    {
        crate::dup_ebml_copy(&self.cue_ref_time)
    }

    /// A deep copy of the `cue_ref_cluster` slot.
    #[verifier::loop_isolation(false)]
    fn dup_cue_ref_cluster(&self) -> (r: Ebml<u64>)
        ensures
            seq![FieldModel::UInt { id: 0x97, idx: r.index, key: r.id, v: *r.v }] == seq![FieldModel::UInt { id: 0x97, idx: self.cue_ref_cluster.index, key: self.cue_ref_cluster.id, v: *self.cue_ref_cluster.v }],
    {
        crate::dup_ebml_copy(&self.cue_ref_cluster)
    }

    /// A deep copy of the `cue_ref_number` slot.
    #[verifier::loop_isolation(false)]
    fn dup_cue_ref_number(&self) -> (r: Option<Ebml<u64>>)
        ensures
            (match &r { Some(e) => seq![FieldModel::UInt { id: 0x535F, idx: e.index, key: e.id, v: *e.v }], None => Seq::empty() }) == (match &self.cue_ref_number { Some(e) => seq![FieldModel::UInt { id: 0x535F, idx: e.index, key: e.id, v: *e.v }], None => Seq::empty() }),
    {
        match &self.cue_ref_number {
            Some(e) => Some(crate::dup_ebml_copy(e)),
            None => None,
        }
    }

    /// A deep copy of the `cue_ref_codec_state` slot.
    #[verifier::loop_isolation(false)]
    fn dup_cue_ref_codec_state(&self) -> (r: Option<Ebml<u64>>)
        ensures
            (match &r { Some(e) => seq![FieldModel::UInt { id: 0xEB, idx: e.index, key: e.id, v: *e.v }], None => Seq::empty() }) == (match &self.cue_ref_codec_state { Some(e) => seq![FieldModel::UInt { id: 0xEB, idx: e.index, key: e.id, v: *e.v }], None => Seq::empty() }),
    {
        match &self.cue_ref_codec_state {
            Some(e) => Some(crate::dup_ebml_copy(e)),
            None => None,
        }
    }

    /// A deep copy with the same children, positions, and keys.
    #[verifier::rlimit(100)]
    #[verifier::spinoff_prover]
    pub fn duplicate(&self) -> (r: Self)
        ensures
            r.raw_model() == self.raw_model(),
            r.size == self.size,
    {
        let r = CueReference {
            size: self.size,
            cue_ref_time: self.dup_cue_ref_time(),
            cue_ref_cluster: self.dup_cue_ref_cluster(),
            cue_ref_number: self.dup_cue_ref_number(),
            cue_ref_codec_state: self.dup_cue_ref_codec_state(),
        };
        proof {
            reveal(CueReference::raw_model);
            assert(r.raw_model() == self.raw_model());
        }
        r
    }
}

impl CueReference {
    /// Serialise the whole element: body to a scratch buffer first, then
    /// the header with the now-known length, then the body.
    pub fn write_blocking(&self, w: &mut Vec<u8>) -> (r: Result<usize, MatroskaError>)
        ensures
            r is Ok <==> body_ok_rec(self.model()) && cat_bytes(self.model()).len() < 0xFFFFFFFFFFFFFF,
            r is Ok ==> final(w)@ == old(w)@ + node_frame_bytes(0xDB, cat_bytes(self.model()))
                && r->Ok_0 == node_frame_bytes(0xDB, cat_bytes(self.model())).len(),
            r is Err ==> final(w)@ == old(w)@ && r->Err_0 is InvalidVarIntMoreThanVintMax,
    {
        let mut buf: Vec<u8> = Vec::new();
        match self.write_body_blocking(&mut buf) {
            Ok(_) => {},
            Err(e) => {
                return Err(e);
            },
        }
        let start = w.len();
        match crate::io::write_element_id_size(w, 0xDB, buf.len() as u64) {
            Ok(_) => {},
            Err(e) => {
                return Err(e);
            },
        }
        w.append(&mut buf);
        Ok(w.len() - start)
    }

    /// Write this element's header with the given body size.
    pub fn write_header_blocking(&self, w: &mut Vec<u8>, size: u64) -> (r: Result<usize, MatroskaError>)
        ensures
            r is Ok <==> crate::io::size_encodable(size),
            r is Ok ==> final(w)@ == old(w)@ + crate::io::header_bytes(0xDB, size)
                && r->Ok_0 == crate::io::header_bytes(0xDB, size).len(),
            r is Err ==> final(w)@ == old(w)@ && r->Err_0 is InvalidVarIntMoreThanVintMax,
    {
        crate::io::write_element_id_size(w, 0xDB, size)
    }

    /// Write the body: every present child, in emission order.
    #[verifier::loop_isolation(false)]
    #[verifier::rlimit(60)]
    #[verifier::spinoff_prover]
    pub fn write_body_blocking(&self, w: &mut Vec<u8>) -> (r: Result<usize, MatroskaError>)
        ensures
            r is Ok <==> body_ok_rec(self.model()),
            r is Ok ==> final(w)@ == old(w)@ + cat_bytes(self.model())
                && r->Ok_0 == cat_bytes(self.model()).len(),
            r is Err ==> r->Err_0 is InvalidVarIntMoreThanVintMax,
    {
        let fields = self.elements();
        let start = w.len();
        let ghost ms = self.model();
        let mut i: usize = 0;
        while i < fields.len()
            invariant
                i <= fields@.len(),
                models_of::<CueReferenceFields>(fields@) == ms,
                w@ == old(w)@ + cat_bytes(ms.take(i as int)),
                body_ok_rec(ms.take(i as int)),
            decreases fields@.len() - i,
        {
            proof {
                assert(models_of::<CueReferenceFields>(fields@)[i as int] == ms[i as int]);
            }
            match fields[i].write_el(w) {
                Ok(_) => {},
                Err(e) => {
                    proof {
                        lemma_body_ok_forall(ms);
                    }
                    return Err(e);
                },
            }
            proof {
                assert(ms.take(i + 1) =~= ms.take(i as int).push(ms[i as int]));
                lemma_cat_snoc(ms.take(i as int), ms[i as int]);
            }
            i += 1;
        }
        proof {
            assert(ms.take(ms.len() as int) =~= ms);
            lemma_body_ok_forall(ms);
        }
        Ok(w.len() - start)
    }
}

/// One present child of a `CueReference`, paired with its value.
#[derive(Debug)]
pub enum CueReferenceFields {
    CueRefTime(Ebml<u64>),
    CueRefCluster(Ebml<u64>),
    CueRefNumber(Ebml<u64>),
    CueRefCodecState(Ebml<u64>),
}

impl CueReferenceFields {
    /// The child's element ID and its two ordering slots.
    #[verifier::rlimit(60)]
    #[verifier::spinoff_prover]
    pub fn index(&self) -> (r: (EbmlId, Option<u64>, u64))
        ensures
            r.0.spec_u64() == self.model().eid(),
            r.1 == self.model().idx(),
            r.2 == self.model().key(),
    {
        match self {
            Self::CueRefTime(val) => (EbmlId::CueRefTime, val.index, val.id),
            Self::CueRefCluster(val) => (EbmlId::CueRefCluster, val.index, val.id),
            Self::CueRefNumber(val) => (EbmlId::CueRefNumber, val.index, val.id),
            Self::CueRefCodecState(val) => (EbmlId::CueRefCodecState, val.index, val.id),
        }
    }

    /// Write this child's frame.
    #[verifier::rlimit(60)]
    #[verifier::spinoff_prover]
    pub fn write_el(&self, w: &mut Vec<u8>) -> (r: Result<usize, MatroskaError>)
        ensures
            r is Ok <==> el_ok(self.model()),
            r is Ok ==> final(w)@ == old(w)@ + el_bytes(self.model())
                && r->Ok_0 == el_bytes(self.model()).len(),
            r is Err ==> final(w)@ == old(w)@ && r->Err_0 is InvalidVarIntMoreThanVintMax,
    {
        match self {
            Self::CueRefTime(val) => crate::io::write_el_uint(w, 0x96, &*val.v),
            Self::CueRefCluster(val) => crate::io::write_el_uint(w, 0x97, &*val.v),
            Self::CueRefNumber(val) => crate::io::write_el_uint(w, 0x535F, &*val.v),
            Self::CueRefCodecState(val) => crate::io::write_el_uint(w, 0xEB, &*val.v),
        }
    }
}

impl EbmlField for CueReferenceFields {
    open spec fn model(&self) -> FieldModel {
        match self {
            Self::CueRefTime(e) => FieldModel::UInt { id: 0x96, idx: e.index, key: e.id, v: *e.v },
            Self::CueRefCluster(e) => FieldModel::UInt { id: 0x97, idx: e.index, key: e.id, v: *e.v },
            Self::CueRefNumber(e) => FieldModel::UInt { id: 0x535F, idx: e.index, key: e.id, v: *e.v },
            Self::CueRefCodecState(e) => FieldModel::UInt { id: 0xEB, idx: e.index, key: e.id, v: *e.v },
        }
    }

    fn sort_key(&self) -> (r: (Option<u64>, u64)) {
        match self {
            Self::CueRefTime(e) => (e.index, e.id),
            Self::CueRefCluster(e) => (e.index, e.id),
            Self::CueRefNumber(e) => (e.index, e.id),
            Self::CueRefCodecState(e) => (e.index, e.id),
        }
    }
}

/// The `Attachments` structural element.
#[derive(Debug)]
pub struct Attachments {
    pub size: u64,
    pub attached_file: Vec<Ebml<AttachedFile>>,
}

/// The models of the `attached_file` children of a `Attachments`.
pub open spec fn attachments_attached_file_models(s: Seq<Ebml<AttachedFile>>) -> Seq<FieldModel> {
    s.map_values(|e: Ebml<AttachedFile>| FieldModel::Node { id: 0x61A7, idx: e.index, key: e.id, children: (*e.v).model() })
}

impl Attachments {
    /// The models of the children, in declaration order.
    #[verifier::opaque]
    pub open spec fn raw_model(self) -> Seq<FieldModel>
    {
        attachments_attached_file_models(self.attached_file@)
    }

    /// The children in emission order.
    #[verifier::opaque]
    pub open spec fn model(self) -> Seq<FieldModel>
    {
        sort_fields_spec(self.raw_model())
    }

    /// Append the `attached_file` child values to a field run.
    #[verifier::loop_isolation(false)]
    fn push_attached_file(&self, v: &mut Vec<AttachmentsFields>)
        ensures
            models_of::<AttachmentsFields>(final(v)@) == models_of::<AttachmentsFields>(old(v)@) + attachments_attached_file_models(self.attached_file@),
    {
        let ghost base = models_of::<AttachmentsFields>(v@);
        let mut i: usize = 0;
        while i < self.attached_file.len()
            invariant
                i <= self.attached_file@.len(),
                models_of::<AttachmentsFields>(v@) == base + attachments_attached_file_models(self.attached_file@.take(i as int)),
            decreases self.attached_file@.len() - i,
        {
            let e = &self.attached_file[i];
            let d = (&*e.v).duplicate();
            proof {
                reveal(AttachedFile::model);
                assert(d.model() == (*e.v).model());
            }
            let ghost prevv = v@;
            v.push(AttachmentsFields::AttachedFile(Ebml { index: e.index, v: Box::new(d), id: e.id }));
            proof {
                assert(self.attached_file@.take(i + 1) =~= self.attached_file@.take(i as int).push(self.attached_file@[i as int]));
                assert(models_of::<AttachmentsFields>(v@) =~= models_of::<AttachmentsFields>(prevv).push(v@.last().model()));
                assert(attachments_attached_file_models(self.attached_file@.take(i + 1)) =~= attachments_attached_file_models(self.attached_file@.take(i as int)).push(v@.last().model()));
                assert(base + attachments_attached_file_models(self.attached_file@.take(i + 1)) =~= (base + attachments_attached_file_models(self.attached_file@.take(i as int))).push(v@.last().model()));
            }
            i += 1;
        }
        proof {
            assert(self.attached_file@.take(self.attached_file@.len() as int) =~= self.attached_file@);
        }
    }

    /// The present children, each paired with its ID, in emission order.
    #[verifier::rlimit(100)]
    #[verifier::spinoff_prover]
    pub fn elements(&self) -> (r: Vec<AttachmentsFields>)
        ensures
            models_of::<AttachmentsFields>(r@) == self.model(),
    {
        let mut v: Vec<AttachmentsFields> = Vec::new();
        proof {
            assert(models_of::<AttachmentsFields>(v@) =~= Seq::<FieldModel>::empty());
        }
        self.push_attached_file(&mut v);
        proof {
            reveal(Attachments::raw_model);
            reveal(Attachments::model);
            assert(Seq::<FieldModel>::empty() + attachments_attached_file_models(self.attached_file@) =~= attachments_attached_file_models(self.attached_file@));
            assert(models_of::<AttachmentsFields>(v@) == self.raw_model());
        }
        sort_fields(v)
    }

    /// A deep copy of the `attached_file` slot.
    #[verifier::loop_isolation(false)]
    fn dup_attached_file(&self) -> (r: Vec<Ebml<AttachedFile>>)
        ensures
            attachments_attached_file_models(r@) == attachments_attached_file_models(self.attached_file@),
    {
        let mut out: Vec<Ebml<AttachedFile>> = Vec::new();
        let mut i: usize = 0;
        while i < self.attached_file.len()
            invariant
                i <= self.attached_file@.len(),
                attachments_attached_file_models(out@) == attachments_attached_file_models(self.attached_file@.take(i as int)),
            decreases self.attached_file@.len() - i,
        {
            let e = &self.attached_file[i];
            let d = (&*e.v).duplicate();
            proof {
                reveal(AttachedFile::model);
                assert(d.model() == (*e.v).model());
            }
            let ghost prevo = out@;
            out.push(Ebml { index: e.index, v: Box::new(d), id: e.id });
            proof {
                assert(self.attached_file@.take(i + 1) =~= self.attached_file@.take(i as int).push(self.attached_file@[i as int]));
                assert(out@.drop_last() =~= prevo);
                assert(self.attached_file@.take(i + 1).drop_last() =~= self.attached_file@.take(i as int));
                assert(FieldModel::Node { id: 0x61A7, idx: (out@.last()).index, key: (out@.last()).id, children: (*(out@.last()).v).model() } == FieldModel::Node { id: 0x61A7, idx: (self.attached_file@[i as int]).index, key: (self.attached_file@[i as int]).id, children: (*(self.attached_file@[i as int]).v).model() });
                assert(attachments_attached_file_models(out@) =~= attachments_attached_file_models(prevo).push(FieldModel::Node { id: 0x61A7, idx: (out@.last()).index, key: (out@.last()).id, children: (*(out@.last()).v).model() }));
                assert(attachments_attached_file_models(self.attached_file@.take(i + 1)) =~= attachments_attached_file_models(self.attached_file@.take(i as int)).push(FieldModel::Node { id: 0x61A7, idx: (self.attached_file@[i as int]).index, key: (self.attached_file@[i as int]).id, children: (*(self.attached_file@[i as int]).v).model() }));
            }
            i += 1;
        }
        proof {
            assert(self.attached_file@.take(self.attached_file@.len() as int) =~= self.attached_file@);
        }
        out
    }

    /// A deep copy with the same children, positions, and keys.
    #[verifier::rlimit(100)]
    #[verifier::spinoff_prover]
    pub fn duplicate(&self) -> (r: Self)
        ensures
            r.raw_model() == self.raw_model(),
            r.size == self.size,
    {
        let r = Attachments {
            size: self.size,
            attached_file: self.dup_attached_file(),
        };
        proof {
            reveal(Attachments::raw_model);
            assert(r.raw_model() == self.raw_model());
        }
        r
    }
}

impl Attachments {
    /// Serialise the whole element: body to a scratch buffer first, then
    /// the header with the now-known length, then the body.
    pub fn write_blocking(&self, w: &mut Vec<u8>) -> (r: Result<usize, MatroskaError>)
        ensures
            r is Ok <==> body_ok_rec(self.model()) && cat_bytes(self.model()).len() < 0xFFFFFFFFFFFFFF,
            r is Ok ==> final(w)@ == old(w)@ + node_frame_bytes(0x1941A469, cat_bytes(self.model()))
                && r->Ok_0 == node_frame_bytes(0x1941A469, cat_bytes(self.model())).len(),
            r is Err ==> final(w)@ == old(w)@ && r->Err_0 is InvalidVarIntMoreThanVintMax,
    {
        let mut buf: Vec<u8> = Vec::new();
        match self.write_body_blocking(&mut buf) {
            Ok(_) => {},
            Err(e) => {
                return Err(e);
            },
        }
        let start = w.len();
        match crate::io::write_element_id_size(w, 0x1941A469, buf.len() as u64) {
            Ok(_) => {},
            Err(e) => {
                return Err(e);
            },
        }
        w.append(&mut buf);
        Ok(w.len() - start)
    }

    /// Write this element's header with the given body size.
    pub fn write_header_blocking(&self, w: &mut Vec<u8>, size: u64) -> (r: Result<usize, MatroskaError>)
        ensures
            r is Ok <==> crate::io::size_encodable(size),
            r is Ok ==> final(w)@ == old(w)@ + crate::io::header_bytes(0x1941A469, size)
                && r->Ok_0 == crate::io::header_bytes(0x1941A469, size).len(),
            r is Err ==> final(w)@ == old(w)@ && r->Err_0 is InvalidVarIntMoreThanVintMax,
    {
        crate::io::write_element_id_size(w, 0x1941A469, size)
    }

    /// Write the body: every present child, in emission order.
    #[verifier::loop_isolation(false)]
    #[verifier::rlimit(60)]
    #[verifier::spinoff_prover]
    pub fn write_body_blocking(&self, w: &mut Vec<u8>) -> (r: Result<usize, MatroskaError>)
        ensures
            r is Ok <==> body_ok_rec(self.model()),
            r is Ok ==> final(w)@ == old(w)@ + cat_bytes(self.model())
                && r->Ok_0 == cat_bytes(self.model()).len(),
            r is Err ==> r->Err_0 is InvalidVarIntMoreThanVintMax,
    {
        let fields = self.elements();
        let start = w.len();
        let ghost ms = self.model();
        let mut i: usize = 0;
        while i < fields.len()
            invariant
                i <= fields@.len(),
                models_of::<AttachmentsFields>(fields@) == ms,
                w@ == old(w)@ + cat_bytes(ms.take(i as int)),
                body_ok_rec(ms.take(i as int)),
            decreases fields@.len() - i,
        {
            proof {
                assert(models_of::<AttachmentsFields>(fields@)[i as int] == ms[i as int]);
            }
            match fields[i].write_el(w) {
                Ok(_) => {},
                Err(e) => {
                    proof {
                        lemma_body_ok_forall(ms);
                    }
                    return Err(e);
                },
            }
            proof {
                assert(ms.take(i + 1) =~= ms.take(i as int).push(ms[i as int]));
                lemma_cat_snoc(ms.take(i as int), ms[i as int]);
            }
            i += 1;
        }
        proof {
            assert(ms.take(ms.len() as int) =~= ms);
            lemma_body_ok_forall(ms);
        }
        Ok(w.len() - start)
    }
}

/// One present child of a `Attachments`, paired with its value.
#[derive(Debug)]
pub enum AttachmentsFields {
    AttachedFile(Ebml<AttachedFile>),
}

impl AttachmentsFields {
    /// The child's element ID and its two ordering slots.
    #[verifier::rlimit(60)]
    #[verifier::spinoff_prover]
    pub fn index(&self) -> (r: (EbmlId, Option<u64>, u64))
        ensures
            r.0.spec_u64() == self.model().eid(),
            r.1 == self.model().idx(),
            r.2 == self.model().key(),
    {
        match self {
            Self::AttachedFile(val) => (EbmlId::AttachedFile, val.index, val.id),
        }
    }

    /// Write this child's frame.
    #[verifier::rlimit(60)]
    #[verifier::spinoff_prover]
    pub fn write_el(&self, w: &mut Vec<u8>) -> (r: Result<usize, MatroskaError>)
        ensures
            r is Ok <==> el_ok(self.model()),
            r is Ok ==> final(w)@ == old(w)@ + el_bytes(self.model())
                && r->Ok_0 == el_bytes(self.model()).len(),
            r is Err ==> final(w)@ == old(w)@ && r->Err_0 is InvalidVarIntMoreThanVintMax,
    {
        match self {
            Self::AttachedFile(val) => (*val.v).write_blocking(w),
        }
    }
}

impl EbmlField for AttachmentsFields {
    open spec fn model(&self) -> FieldModel {
        match self {
            Self::AttachedFile(e) => FieldModel::Node { id: 0x61A7, idx: e.index, key: e.id, children: (*e.v).model() },
        }
    }

    fn sort_key(&self) -> (r: (Option<u64>, u64)) {
        match self {
            Self::AttachedFile(e) => (e.index, e.id),
        }
    }
}

/// The `AttachedFile` structural element.
#[derive(Debug)]
pub struct AttachedFile {
    pub size: u64,
    pub file_description: Option<Ebml<String>>,
    pub file_name: Ebml<String>,
    pub file_media_type: Ebml<String>,
    pub file_data: Ebml<Vec<u8>>,
    pub file_uid: Ebml<u64>,
    pub file_referral: Option<Ebml<Vec<u8>>>,
    pub file_used_start_time: Option<Ebml<u64>>,
    pub file_used_end_time: Option<Ebml<u64>>,
}

impl AttachedFile {
    /// The models of the children, in declaration order.
    #[verifier::opaque]
    pub open spec fn raw_model(self) -> Seq<FieldModel>
    {
        (match self.file_description { Some(e) => seq![FieldModel::Text { id: 0x467E, idx: e.index, key: e.id, s: (*e.v)@ }], None => Seq::empty() })
            + seq![FieldModel::Text { id: 0x466E, idx: self.file_name.index, key: self.file_name.id, s: (*self.file_name.v)@ }]
            + seq![FieldModel::Text { id: 0x4660, idx: self.file_media_type.index, key: self.file_media_type.id, s: (*self.file_media_type.v)@ }]
            + seq![FieldModel::Bin { id: 0x465C, idx: self.file_data.index, key: self.file_data.id, b: (*self.file_data.v)@ }]
            + seq![FieldModel::UInt { id: 0x46AE, idx: self.file_uid.index, key: self.file_uid.id, v: *self.file_uid.v }]
            + (match self.file_referral { Some(e) => seq![FieldModel::Bin { id: 0x4675, idx: e.index, key: e.id, b: (*e.v)@ }], None => Seq::empty() })
            + (match self.file_used_start_time { Some(e) => seq![FieldModel::UInt { id: 0x4661, idx: e.index, key: e.id, v: *e.v }], None => Seq::empty() })
            + (match self.file_used_end_time { Some(e) => seq![FieldModel::UInt { id: 0x4662, idx: e.index, key: e.id, v: *e.v }], None => Seq::empty() })
    }

    /// The children in emission order.
    #[verifier::opaque]
    pub open spec fn model(self) -> Seq<FieldModel>
    {
        sort_fields_spec(self.raw_model())
    }

    /// Append the `file_description` child values to a field run.
    #[verifier::loop_isolation(false)]
    fn push_file_description(&self, v: &mut Vec<AttachedFileFields>)
        ensures
            models_of::<AttachedFileFields>(final(v)@) == models_of::<AttachedFileFields>(old(v)@) + (match &self.file_description { Some(e) => seq![FieldModel::Text { id: 0x467E, idx: e.index, key: e.id, s: (*e.v)@ }], None => Seq::empty() }),
    {
        match &self.file_description {
            Some(e) => {
                let ghost prevv = v@;
                v.push(AttachedFileFields::FileDescription(crate::dup_ebml_string(e)));
                proof {
                    assert(models_of::<AttachedFileFields>(v@) =~= models_of::<AttachedFileFields>(prevv).push(v@.last().model()));
                    assert(models_of::<AttachedFileFields>(prevv).push(v@.last().model()) =~= models_of::<AttachedFileFields>(prevv) + (match &self.file_description { Some(e) => seq![FieldModel::Text { id: 0x467E, idx: e.index, key: e.id, s: (*e.v)@ }], None => Seq::empty() }));
                }
            },
            None => {
                proof {
                    assert(models_of::<AttachedFileFields>(v@) =~= models_of::<AttachedFileFields>(v@) + (match &self.file_description { Some(e) => seq![FieldModel::Text { id: 0x467E, idx: e.index, key: e.id, s: (*e.v)@ }], None => Seq::empty() }));
                }
            },
        }
    }

    /// Append the `file_name` child values to a field run.
    #[verifier::loop_isolation(false)]
    fn push_file_name(&self, v: &mut Vec<AttachedFileFields>)
        ensures
            models_of::<AttachedFileFields>(final(v)@) == models_of::<AttachedFileFields>(old(v)@) + seq![FieldModel::Text { id: 0x466E, idx: self.file_name.index, key: self.file_name.id, s: (*self.file_name.v)@ }],
    {
        let ghost prevv = v@;
        v.push(AttachedFileFields::FileName(crate::dup_ebml_string(&self.file_name)));
        proof {
            assert(models_of::<AttachedFileFields>(v@) =~= models_of::<AttachedFileFields>(prevv).push(v@.last().model()));
            assert(models_of::<AttachedFileFields>(prevv).push(v@.last().model()) =~= models_of::<AttachedFileFields>(prevv) + seq![FieldModel::Text { id: 0x466E, idx: self.file_name.index, key: self.file_name.id, s: (*self.file_name.v)@ }]);
        }
    }

    /// Append the `file_media_type` child values to a field run.
    #[verifier::loop_isolation(false)]
    fn push_file_media_type(&self, v: &mut Vec<AttachedFileFields>)
        ensures
            models_of::<AttachedFileFields>(final(v)@) == models_of::<AttachedFileFields>(old(v)@) + seq![FieldModel::Text { id: 0x4660, idx: self.file_media_type.index, key: self.file_media_type.id, s: (*self.file_media_type.v)@ }],
    {
        let ghost prevv = v@;
        v.push(AttachedFileFields::FileMediaType(crate::dup_ebml_string(&self.file_media_type)));
        proof {
            assert(models_of::<AttachedFileFields>(v@) =~= models_of::<AttachedFileFields>(prevv).push(v@.last().model()));
            assert(models_of::<AttachedFileFields>(prevv).push(v@.last().model()) =~= models_of::<AttachedFileFields>(prevv) + seq![FieldModel::Text { id: 0x4660, idx: self.file_media_type.index, key: self.file_media_type.id, s: (*self.file_media_type.v)@ }]);
        }
    }

    /// Append the `file_data` child values to a field run.
    #[verifier::loop_isolation(false)]
    fn push_file_data(&self, v: &mut Vec<AttachedFileFields>)
        ensures
            models_of::<AttachedFileFields>(final(v)@) == models_of::<AttachedFileFields>(old(v)@) + seq![FieldModel::Bin { id: 0x465C, idx: self.file_data.index, key: self.file_data.id, b: (*self.file_data.v)@ }],
    {
        let ghost prevv = v@;
        v.push(AttachedFileFields::FileData(crate::dup_ebml_bytes(&self.file_data)));
        proof {
            assert(models_of::<AttachedFileFields>(v@) =~= models_of::<AttachedFileFields>(prevv).push(v@.last().model()));
            assert(models_of::<AttachedFileFields>(prevv).push(v@.last().model()) =~= models_of::<AttachedFileFields>(prevv) + seq![FieldModel::Bin { id: 0x465C, idx: self.file_data.index, key: self.file_data.id, b: (*self.file_data.v)@ }]);
        }
    }

    /// Append the `file_uid` child values to a field run.
    #[verifier::loop_isolation(false)]
    fn push_file_uid(&self, v: &mut Vec<AttachedFileFields>)
        ensures
            models_of::<AttachedFileFields>(final(v)@) == models_of::<AttachedFileFields>(old(v)@) + seq![FieldModel::UInt { id: 0x46AE, idx: self.file_uid.index, key: self.file_uid.id, v: *self.file_uid.v }],
    {
        let ghost prevv = v@;
        v.push(AttachedFileFields::FileUid(crate::dup_ebml_copy(&self.file_uid)));
        proof {
            assert(models_of::<AttachedFileFields>(v@) =~= models_of::<AttachedFileFields>(prevv).push(v@.last().model()));
            assert(models_of::<AttachedFileFields>(prevv).push(v@.last().model()) =~= models_of::<AttachedFileFields>(prevv) + seq![FieldModel::UInt { id: 0x46AE, idx: self.file_uid.index, key: self.file_uid.id, v: *self.file_uid.v }]);
        }
    }

    /// Append the `file_referral` child values to a field run.
    #[verifier::loop_isolation(false)]
    fn push_file_referral(&self, v: &mut Vec<AttachedFileFields>)
        ensures
            models_of::<AttachedFileFields>(final(v)@) == models_of::<AttachedFileFields>(old(v)@) + (match &self.file_referral { Some(e) => seq![FieldModel::Bin { id: 0x4675, idx: e.index, key: e.id, b: (*e.v)@ }], None => Seq::empty() }),
    {
        match &self.file_referral {
            Some(e) => {
                let ghost prevv = v@;
                v.push(AttachedFileFields::FileReferral(crate::dup_ebml_bytes(e)));
                proof {
                    assert(models_of::<AttachedFileFields>(v@) =~= models_of::<AttachedFileFields>(prevv).push(v@.last().model()));
                    assert(models_of::<AttachedFileFields>(prevv).push(v@.last().model()) =~= models_of::<AttachedFileFields>(prevv) + (match &self.file_referral { Some(e) => seq![FieldModel::Bin { id: 0x4675, idx: e.index, key: e.id, b: (*e.v)@ }], None => Seq::empty() }));
                }
            },
            None => {
                proof {
                    assert(models_of::<AttachedFileFields>(v@) =~= models_of::<AttachedFileFields>(v@) + (match &self.file_referral { Some(e) => seq![FieldModel::Bin { id: 0x4675, idx: e.index, key: e.id, b: (*e.v)@ }], None => Seq::empty() }));
                }
            },
        }
    }

    /// Append the `file_used_start_time` child values to a field run.
    #[verifier::loop_isolation(false)]
    fn push_file_used_start_time(&self, v: &mut Vec<AttachedFileFields>)
        ensures
            models_of::<AttachedFileFields>(final(v)@) == models_of::<AttachedFileFields>(old(v)@) + (match &self.file_used_start_time { Some(e) => seq![FieldModel::UInt { id: 0x4661, idx: e.index, key: e.id, v: *e.v }], None => Seq::empty() }),
    {
        match &self.file_used_start_time {
            Some(e) => {
                let ghost prevv = v@;
                v.push(AttachedFileFields::FileUsedStartTime(crate::dup_ebml_copy(e)));
                proof {
                    assert(models_of::<AttachedFileFields>(v@) =~= models_of::<AttachedFileFields>(prevv).push(v@.last().model()));
                    assert(models_of::<AttachedFileFields>(prevv).push(v@.last().model()) =~= models_of::<AttachedFileFields>(prevv) + (match &self.file_used_start_time { Some(e) => seq![FieldModel::UInt { id: 0x4661, idx: e.index, key: e.id, v: *e.v }], None => Seq::empty() }));
                }
            },
            None => {
                proof {
                    assert(models_of::<AttachedFileFields>(v@) =~= models_of::<AttachedFileFields>(v@) + (match &self.file_used_start_time { Some(e) => seq![FieldModel::UInt { id: 0x4661, idx: e.index, key: e.id, v: *e.v }], None => Seq::empty() }));
                }
            },
        }
    }

    /// Append the `file_used_end_time` child values to a field run.
    #[verifier::loop_isolation(false)]
    fn push_file_used_end_time(&self, v: &mut Vec<AttachedFileFields>)
        ensures
            models_of::<AttachedFileFields>(final(v)@) == models_of::<AttachedFileFields>(old(v)@) + (match &self.file_used_end_time { Some(e) => seq![FieldModel::UInt { id: 0x4662, idx: e.index, key: e.id, v: *e.v }], None => Seq::empty() }),
    {
        match &self.file_used_end_time {
            Some(e) => {
                let ghost prevv = v@;
                v.push(AttachedFileFields::FileUsedEndTime(crate::dup_ebml_copy(e)));
                proof {
                    assert(models_of::<AttachedFileFields>(v@) =~= models_of::<AttachedFileFields>(prevv).push(v@.last().model()));
                    assert(models_of::<AttachedFileFields>(prevv).push(v@.last().model()) =~= models_of::<AttachedFileFields>(prevv) + (match &self.file_used_end_time { Some(e) => seq![FieldModel::UInt { id: 0x4662, idx: e.index, key: e.id, v: *e.v }], None => Seq::empty() }));
                }
            },
            None => {
                proof {
                    assert(models_of::<AttachedFileFields>(v@) =~= models_of::<AttachedFileFields>(v@) + (match &self.file_used_end_time { Some(e) => seq![FieldModel::UInt { id: 0x4662, idx: e.index, key: e.id, v: *e.v }], None => Seq::empty() }));
                }
            },
        }
    }

    /// The present children, each paired with its ID, in emission order.
    #[verifier::rlimit(100)]
    #[verifier::spinoff_prover]
    pub fn elements(&self) -> (r: Vec<AttachedFileFields>)
        ensures
            models_of::<AttachedFileFields>(r@) == self.model(),
    {
        let mut v: Vec<AttachedFileFields> = Vec::new();
        proof {
            assert(models_of::<AttachedFileFields>(v@) =~= Seq::<FieldModel>::empty());
        }
        self.push_file_description(&mut v);
        self.push_file_name(&mut v);
        self.push_file_media_type(&mut v);
        self.push_file_data(&mut v);
        self.push_file_uid(&mut v);
        self.push_file_referral(&mut v);
        self.push_file_used_start_time(&mut v);
        self.push_file_used_end_time(&mut v);
        proof {
            reveal(AttachedFile::raw_model);
            reveal(AttachedFile::model);
            assert(Seq::<FieldModel>::empty() + (match &self.file_description { Some(e) => seq![FieldModel::Text { id: 0x467E, idx: e.index, key: e.id, s: (*e.v)@ }], None => Seq::empty() }) =~= (match &self.file_description { Some(e) => seq![FieldModel::Text { id: 0x467E, idx: e.index, key: e.id, s: (*e.v)@ }], None => Seq::empty() }));
            assert(models_of::<AttachedFileFields>(v@) == self.raw_model());
        }
        sort_fields(v)
    }

    /// A deep copy of the `file_description` slot.
    #[verifier::loop_isolation(false)]
    fn dup_file_description(&self) -> (r: Option<Ebml<String>>)
        ensures
            (match &r { Some(e) => seq![FieldModel::Text { id: 0x467E, idx: e.index, key: e.id, s: (*e.v)@ }], None => Seq::empty() }) == (match &self.file_description { Some(e) => seq![FieldModel::Text { id: 0x467E, idx: e.index, key: e.id, s: (*e.v)@ }], None => Seq::empty() }),
    {
        match &self.file_description {
            Some(e) => Some(crate::dup_ebml_string(e)),
            None => None,
        }
    }

    /// A deep copy of the `file_name` slot.
    #[verifier::loop_isolation(false)]
    fn dup_file_name(&self) -> (r: Ebml<String>)
        ensures
            seq![FieldModel::Text { id: 0x466E, idx: r.index, key: r.id, s: (*r.v)@ }] == seq![FieldModel::Text { id: 0x466E, idx: self.file_name.index, key: self.file_name.id, s: (*self.file_name.v)@ }],
    {
        crate::dup_ebml_string(&self.file_name)
    }

    /// A deep copy of the `file_media_type` slot.
    #[verifier::loop_isolation(false)]
    fn dup_file_media_type(&self) -> (r: Ebml<String>)
        ensures
            seq![FieldModel::Text { id: 0x4660, idx: r.index, key: r.id, s: (*r.v)@ }] == seq![FieldModel::Text { id: 0x4660, idx: self.file_media_type.index, key: self.file_media_type.id, s: (*self.file_media_type.v)@ }],
    {
        crate::dup_ebml_string(&self.file_media_type)
    }

    /// A deep copy of the `file_data` slot.
    #[verifier::loop_isolation(false)]
    fn dup_file_data(&self) -> (r: Ebml<Vec<u8>>)
        ensures
            seq![FieldModel::Bin { id: 0x465C, idx: r.index, key: r.id, b: (*r.v)@ }] == seq![FieldModel::Bin { id: 0x465C, idx: self.file_data.index, key: self.file_data.id, b: (*self.file_data.v)@ }],
    {
        crate::dup_ebml_bytes(&self.file_data)
    }

    /// A deep copy of the `file_uid` slot.
    #[verifier::loop_isolation(false)]
    fn dup_file_uid(&self) -> (r: Ebml<u64>)
        ensures
            seq![FieldModel::UInt { id: 0x46AE, idx: r.index, key: r.id, v: *r.v }] == seq![FieldModel::UInt { id: 0x46AE, idx: self.file_uid.index, key: self.file_uid.id, v: *self.file_uid.v }],
    {
        crate::dup_ebml_copy(&self.file_uid)
    }

    /// A deep copy of the `file_referral` slot.
    #[verifier::loop_isolation(false)]
    fn dup_file_referral(&self) -> (r: Option<Ebml<Vec<u8>>>)
        ensures
            (match &r { Some(e) => seq![FieldModel::Bin { id: 0x4675, idx: e.index, key: e.id, b: (*e.v)@ }], None => Seq::empty() }) == (match &self.file_referral { Some(e) => seq![FieldModel::Bin { id: 0x4675, idx: e.index, key: e.id, b: (*e.v)@ }], None => Seq::empty() }),
    {
        match &self.file_referral {
            Some(e) => Some(crate::dup_ebml_bytes(e)),
            None => None,
        }
    }

    /// A deep copy of the `file_used_start_time` slot.
    #[verifier::loop_isolation(false)]
    fn dup_file_used_start_time(&self) -> (r: Option<Ebml<u64>>)
        ensures
            (match &r { Some(e) => seq![FieldModel::UInt { id: 0x4661, idx: e.index, key: e.id, v: *e.v }], None => Seq::empty() }) == (match &self.file_used_start_time { Some(e) => seq![FieldModel::UInt { id: 0x4661, idx: e.index, key: e.id, v: *e.v }], None => Seq::empty() }),
    {
        match &self.file_used_start_time {
            Some(e) => Some(crate::dup_ebml_copy(e)),
            None => None,
        }
    }

    /// A deep copy of the `file_used_end_time` slot.
    #[verifier::loop_isolation(false)]
    fn dup_file_used_end_time(&self) -> (r: Option<Ebml<u64>>)
        ensures
            (match &r { Some(e) => seq![FieldModel::UInt { id: 0x4662, idx: e.index, key: e.id, v: *e.v }], None => Seq::empty() }) == (match &self.file_used_end_time { Some(e) => seq![FieldModel::UInt { id: 0x4662, idx: e.index, key: e.id, v: *e.v }], None => Seq::empty() }),
    {
        match &self.file_used_end_time {
            Some(e) => Some(crate::dup_ebml_copy(e)),
            None => None,
        }
    }

    /// A deep copy with the same children, positions, and keys.
    #[verifier::rlimit(100)]
    #[verifier::spinoff_prover]
    pub fn duplicate(&self) -> (r: Self)
        ensures
            r.raw_model() == self.raw_model(),
            r.size == self.size,
    {
        let r = AttachedFile {
            size: self.size,
            file_description: self.dup_file_description(),
            file_name: self.dup_file_name(),
            file_media_type: self.dup_file_media_type(),
            file_data: self.dup_file_data(),
            file_uid: self.dup_file_uid(),
            file_referral: self.dup_file_referral(),
            file_used_start_time: self.dup_file_used_start_time(),
            file_used_end_time: self.dup_file_used_end_time(),
        };
        proof {
            reveal(AttachedFile::raw_model);
            assert(r.raw_model() == self.raw_model());
        }
        r
    }
}

impl AttachedFile {
    /// Serialise the whole element: body to a scratch buffer first, then
    /// the header with the now-known length, then the body.
    pub fn write_blocking(&self, w: &mut Vec<u8>) -> (r: Result<usize, MatroskaError>)
        ensures
            r is Ok <==> body_ok_rec(self.model()) && cat_bytes(self.model()).len() < 0xFFFFFFFFFFFFFF,
            r is Ok ==> final(w)@ == old(w)@ + node_frame_bytes(0x61A7, cat_bytes(self.model()))
                && r->Ok_0 == node_frame_bytes(0x61A7, cat_bytes(self.model())).len(),
            r is Err ==> final(w)@ == old(w)@ && r->Err_0 is InvalidVarIntMoreThanVintMax,
    {
        let mut buf: Vec<u8> = Vec::new();
        match self.write_body_blocking(&mut buf) {
            Ok(_) => {},
            Err(e) => {
                return Err(e);
            },
        }
        let start = w.len();
        match crate::io::write_element_id_size(w, 0x61A7, buf.len() as u64) {
            Ok(_) => {},
            Err(e) => {
                return Err(e);
            },
        }
        w.append(&mut buf);
        Ok(w.len() - start)
    }

    /// Write this element's header with the given body size.
    pub fn write_header_blocking(&self, w: &mut Vec<u8>, size: u64) -> (r: Result<usize, MatroskaError>)
        ensures
            r is Ok <==> crate::io::size_encodable(size),
            r is Ok ==> final(w)@ == old(w)@ + crate::io::header_bytes(0x61A7, size)
                && r->Ok_0 == crate::io::header_bytes(0x61A7, size).len(),
            r is Err ==> final(w)@ == old(w)@ && r->Err_0 is InvalidVarIntMoreThanVintMax,
    {
        crate::io::write_element_id_size(w, 0x61A7, size)
    }

    /// Write the body: every present child, in emission order.
    #[verifier::loop_isolation(false)]
    #[verifier::rlimit(60)]
    #[verifier::spinoff_prover]
    pub fn write_body_blocking(&self, w: &mut Vec<u8>) -> (r: Result<usize, MatroskaError>)
        ensures
            r is Ok <==> body_ok_rec(self.model()),
            r is Ok ==> final(w)@ == old(w)@ + cat_bytes(self.model())
                && r->Ok_0 == cat_bytes(self.model()).len(),
            r is Err ==> r->Err_0 is InvalidVarIntMoreThanVintMax,
    {
        let fields = self.elements();
        let start = w.len();
        let ghost ms = self.model();
        let mut i: usize = 0;
        while i < fields.len()
            invariant
                i <= fields@.len(),
                models_of::<AttachedFileFields>(fields@) == ms,
                w@ == old(w)@ + cat_bytes(ms.take(i as int)),
                body_ok_rec(ms.take(i as int)),
            decreases fields@.len() - i,
        {
            proof {
                assert(models_of::<AttachedFileFields>(fields@)[i as int] == ms[i as int]);
            }
            match fields[i].write_el(w) {
                Ok(_) => {},
                Err(e) => {
                    proof {
                        lemma_body_ok_forall(ms);
                    }
                    return Err(e);
                },
            }
            proof {
                assert(ms.take(i + 1) =~= ms.take(i as int).push(ms[i as int]));
                lemma_cat_snoc(ms.take(i as int), ms[i as int]);
            }
            i += 1;
        }
        proof {
            assert(ms.take(ms.len() as int) =~= ms);
            lemma_body_ok_forall(ms);
        }
        Ok(w.len() - start)
    }
}

/// One present child of a `AttachedFile`, paired with its value.
#[derive(Debug)]
pub enum AttachedFileFields {
    FileDescription(Ebml<String>),
    FileName(Ebml<String>),
    FileMediaType(Ebml<String>),
    FileData(Ebml<Vec<u8>>),
    FileUid(Ebml<u64>),
    FileReferral(Ebml<Vec<u8>>),
    FileUsedStartTime(Ebml<u64>),
    FileUsedEndTime(Ebml<u64>),
}

impl AttachedFileFields {
    /// The child's element ID and its two ordering slots.
    #[verifier::rlimit(60)]
    #[verifier::spinoff_prover]
    pub fn index(&self) -> (r: (EbmlId, Option<u64>, u64))
        ensures
            r.0.spec_u64() == self.model().eid(),
            r.1 == self.model().idx(),
            r.2 == self.model().key(),
    {
        match self {
            Self::FileDescription(val) => (EbmlId::FileDescription, val.index, val.id),
            Self::FileName(val) => (EbmlId::FileName, val.index, val.id),
            Self::FileMediaType(val) => (EbmlId::FileMediaType, val.index, val.id),
            Self::FileData(val) => (EbmlId::FileData, val.index, val.id),
            Self::FileUid(val) => (EbmlId::FileUid, val.index, val.id),
            Self::FileReferral(val) => (EbmlId::FileReferral, val.index, val.id),
            Self::FileUsedStartTime(val) => (EbmlId::FileUsedStartTime, val.index, val.id),
            Self::FileUsedEndTime(val) => (EbmlId::FileUsedEndTime, val.index, val.id),
        }
    }

    /// Write this child's frame.
    #[verifier::rlimit(60)]
    #[verifier::spinoff_prover]
    pub fn write_el(&self, w: &mut Vec<u8>) -> (r: Result<usize, MatroskaError>)
        ensures
            r is Ok <==> el_ok(self.model()),
            r is Ok ==> final(w)@ == old(w)@ + el_bytes(self.model())
                && r->Ok_0 == el_bytes(self.model()).len(),
            r is Err ==> final(w)@ == old(w)@ && r->Err_0 is InvalidVarIntMoreThanVintMax,
    {
        match self {
            Self::FileDescription(val) => crate::io::write_el_utf8(w, 0x467E, (*val.v).as_str()),
            Self::FileName(val) => crate::io::write_el_utf8(w, 0x466E, (*val.v).as_str()),
            Self::FileMediaType(val) => crate::io::write_el_string(w, 0x4660, (*val.v).as_str()),
            Self::FileData(val) => crate::io::write_el_bin(w, 0x465C, (*val.v).as_slice()),
            Self::FileUid(val) => crate::io::write_el_uint(w, 0x46AE, &*val.v),
            Self::FileReferral(val) => crate::io::write_el_bin(w, 0x4675, (*val.v).as_slice()),
            Self::FileUsedStartTime(val) => crate::io::write_el_uint(w, 0x4661, &*val.v),
            Self::FileUsedEndTime(val) => crate::io::write_el_uint(w, 0x4662, &*val.v),
        }
    }
}

impl EbmlField for AttachedFileFields {
    open spec fn model(&self) -> FieldModel {
        match self {
            Self::FileDescription(e) => FieldModel::Text { id: 0x467E, idx: e.index, key: e.id, s: (*e.v)@ },
            Self::FileName(e) => FieldModel::Text { id: 0x466E, idx: e.index, key: e.id, s: (*e.v)@ },
            Self::FileMediaType(e) => FieldModel::Text { id: 0x4660, idx: e.index, key: e.id, s: (*e.v)@ },
            Self::FileData(e) => FieldModel::Bin { id: 0x465C, idx: e.index, key: e.id, b: (*e.v)@ },
            Self::FileUid(e) => FieldModel::UInt { id: 0x46AE, idx: e.index, key: e.id, v: *e.v },
            Self::FileReferral(e) => FieldModel::Bin { id: 0x4675, idx: e.index, key: e.id, b: (*e.v)@ },
            Self::FileUsedStartTime(e) => FieldModel::UInt { id: 0x4661, idx: e.index, key: e.id, v: *e.v },
            Self::FileUsedEndTime(e) => FieldModel::UInt { id: 0x4662, idx: e.index, key: e.id, v: *e.v },
        }
    }

    fn sort_key(&self) -> (r: (Option<u64>, u64)) {
        match self {
            Self::FileDescription(e) => (e.index, e.id),
            Self::FileName(e) => (e.index, e.id),
            Self::FileMediaType(e) => (e.index, e.id),
            Self::FileData(e) => (e.index, e.id),
            Self::FileUid(e) => (e.index, e.id),
            Self::FileReferral(e) => (e.index, e.id),
            Self::FileUsedStartTime(e) => (e.index, e.id),
            Self::FileUsedEndTime(e) => (e.index, e.id),
        }
    }
}

/// The `Chapters` structural element.
#[derive(Debug)]
pub struct Chapters {
    pub size: u64,
    pub edition_entry: Vec<Ebml<EditionEntry>>,
}

/// The models of the `edition_entry` children of a `Chapters`.
pub open spec fn chapters_edition_entry_models(s: Seq<Ebml<EditionEntry>>) -> Seq<FieldModel> {
    s.map_values(|e: Ebml<EditionEntry>| FieldModel::Node { id: 0x45B9, idx: e.index, key: e.id, children: (*e.v).model() })
}

impl Chapters {
    /// The models of the children, in declaration order.
    #[verifier::opaque]
    pub open spec fn raw_model(self) -> Seq<FieldModel>
    {
        chapters_edition_entry_models(self.edition_entry@)
    }

    /// The children in emission order.
    #[verifier::opaque]
    pub open spec fn model(self) -> Seq<FieldModel>
    {
        sort_fields_spec(self.raw_model())
    }

    /// Append the `edition_entry` child values to a field run.
    #[verifier::loop_isolation(false)]
    fn push_edition_entry(&self, v: &mut Vec<ChaptersFields>)
        ensures
            models_of::<ChaptersFields>(final(v)@) == models_of::<ChaptersFields>(old(v)@) + chapters_edition_entry_models(self.edition_entry@),
    {
        let ghost base = models_of::<ChaptersFields>(v@);
        let mut i: usize = 0;
        while i < self.edition_entry.len()
            invariant
                i <= self.edition_entry@.len(),
                models_of::<ChaptersFields>(v@) == base + chapters_edition_entry_models(self.edition_entry@.take(i as int)),
            decreases self.edition_entry@.len() - i,
        {
            let e = &self.edition_entry[i];
            let d = (&*e.v).duplicate();
            proof {
                reveal(EditionEntry::model);
                assert(d.model() == (*e.v).model());
            }
            let ghost prevv = v@;
            v.push(ChaptersFields::EditionEntry(Ebml { index: e.index, v: Box::new(d), id: e.id }));
            proof {
                assert(self.edition_entry@.take(i + 1) =~= self.edition_entry@.take(i as int).push(self.edition_entry@[i as int]));
                assert(models_of::<ChaptersFields>(v@) =~= models_of::<ChaptersFields>(prevv).push(v@.last().model()));
                assert(chapters_edition_entry_models(self.edition_entry@.take(i + 1)) =~= chapters_edition_entry_models(self.edition_entry@.take(i as int)).push(v@.last().model()));
                assert(base + chapters_edition_entry_models(self.edition_entry@.take(i + 1)) =~= (base + chapters_edition_entry_models(self.edition_entry@.take(i as int))).push(v@.last().model()));
            }
            i += 1;
        }
        proof {
            assert(self.edition_entry@.take(self.edition_entry@.len() as int) =~= self.edition_entry@);
        }
    }

    /// The present children, each paired with its ID, in emission order.
    #[verifier::rlimit(100)]
    #[verifier::spinoff_prover]
    pub fn elements(&self) -> (r: Vec<ChaptersFields>)
        ensures
            models_of::<ChaptersFields>(r@) == self.model(),
    {
        let mut v: Vec<ChaptersFields> = Vec::new();
        proof {
            assert(models_of::<ChaptersFields>(v@) =~= Seq::<FieldModel>::empty());
        }
        self.push_edition_entry(&mut v);
        proof {
            reveal(Chapters::raw_model);
            reveal(Chapters::model);
            assert(Seq::<FieldModel>::empty() + chapters_edition_entry_models(self.edition_entry@) =~= chapters_edition_entry_models(self.edition_entry@));
            assert(models_of::<ChaptersFields>(v@) == self.raw_model());
        }
        sort_fields(v)
    }

    /// A deep copy of the `edition_entry` slot.
    #[verifier::loop_isolation(false)]
    fn dup_edition_entry(&self) -> (r: Vec<Ebml<EditionEntry>>)
        ensures
            chapters_edition_entry_models(r@) == chapters_edition_entry_models(self.edition_entry@),
    {
        let mut out: Vec<Ebml<EditionEntry>> = Vec::new();
        let mut i: usize = 0;
        while i < self.edition_entry.len()
            invariant
                i <= self.edition_entry@.len(),
                chapters_edition_entry_models(out@) == chapters_edition_entry_models(self.edition_entry@.take(i as int)),
            decreases self.edition_entry@.len() - i,
        {
            let e = &self.edition_entry[i];
            let d = (&*e.v).duplicate();
            proof {
                reveal(EditionEntry::model);
                assert(d.model() == (*e.v).model());
            }
            let ghost prevo = out@;
            out.push(Ebml { index: e.index, v: Box::new(d), id: e.id });
            proof {
                assert(self.edition_entry@.take(i + 1) =~= self.edition_entry@.take(i as int).push(self.edition_entry@[i as int]));
                assert(out@.drop_last() =~= prevo);
                assert(self.edition_entry@.take(i + 1).drop_last() =~= self.edition_entry@.take(i as int));
                assert(FieldModel::Node { id: 0x45B9, idx: (out@.last()).index, key: (out@.last()).id, children: (*(out@.last()).v).model() } == FieldModel::Node { id: 0x45B9, idx: (self.edition_entry@[i as int]).index, key: (self.edition_entry@[i as int]).id, children: (*(self.edition_entry@[i as int]).v).model() });
                assert(chapters_edition_entry_models(out@) =~= chapters_edition_entry_models(prevo).push(FieldModel::Node { id: 0x45B9, idx: (out@.last()).index, key: (out@.last()).id, children: (*(out@.last()).v).model() }));
                assert(chapters_edition_entry_models(self.edition_entry@.take(i + 1)) =~= chapters_edition_entry_models(self.edition_entry@.take(i as int)).push(FieldModel::Node { id: 0x45B9, idx: (self.edition_entry@[i as int]).index, key: (self.edition_entry@[i as int]).id, children: (*(self.edition_entry@[i as int]).v).model() }));
            }
            i += 1;
        }
        proof {
            assert(self.edition_entry@.take(self.edition_entry@.len() as int) =~= self.edition_entry@);
        }
        out
    }

    /// A deep copy with the same children, positions, and keys.
    #[verifier::rlimit(100)]
    #[verifier::spinoff_prover]
    pub fn duplicate(&self) -> (r: Self)
        ensures
            r.raw_model() == self.raw_model(),
            r.size == self.size,
    {
        let r = Chapters {
            size: self.size,
            edition_entry: self.dup_edition_entry(),
        };
        proof {
            reveal(Chapters::raw_model);
            assert(r.raw_model() == self.raw_model());
        }
        r
    }
}

impl Chapters {
    /// Serialise the whole element: body to a scratch buffer first, then
    /// the header with the now-known length, then the body.
    pub fn write_blocking(&self, w: &mut Vec<u8>) -> (r: Result<usize, MatroskaError>)
        ensures
            r is Ok <==> body_ok_rec(self.model()) && cat_bytes(self.model()).len() < 0xFFFFFFFFFFFFFF,
            r is Ok ==> final(w)@ == old(w)@ + node_frame_bytes(0x1043A770, cat_bytes(self.model()))
                && r->Ok_0 == node_frame_bytes(0x1043A770, cat_bytes(self.model())).len(),
            r is Err ==> final(w)@ == old(w)@ && r->Err_0 is InvalidVarIntMoreThanVintMax,
    {
        let mut buf: Vec<u8> = Vec::new();
        match self.write_body_blocking(&mut buf) {
            Ok(_) => {},
            Err(e) => {
                return Err(e);
            },
        }
        let start = w.len();
        match crate::io::write_element_id_size(w, 0x1043A770, buf.len() as u64) {
            Ok(_) => {},
            Err(e) => {
                return Err(e);
            },
        }
        w.append(&mut buf);
        Ok(w.len() - start)
    }

    /// Write this element's header with the given body size.
    pub fn write_header_blocking(&self, w: &mut Vec<u8>, size: u64) -> (r: Result<usize, MatroskaError>)
        ensures
            r is Ok <==> crate::io::size_encodable(size),
            r is Ok ==> final(w)@ == old(w)@ + crate::io::header_bytes(0x1043A770, size)
                && r->Ok_0 == crate::io::header_bytes(0x1043A770, size).len(),
            r is Err ==> final(w)@ == old(w)@ && r->Err_0 is InvalidVarIntMoreThanVintMax,
    {
        crate::io::write_element_id_size(w, 0x1043A770, size)
    }

    /// Write the body: every present child, in emission order.
    #[verifier::loop_isolation(false)]
    #[verifier::rlimit(60)]
    #[verifier::spinoff_prover]
    pub fn write_body_blocking(&self, w: &mut Vec<u8>) -> (r: Result<usize, MatroskaError>)
        ensures
            r is Ok <==> body_ok_rec(self.model()),
            r is Ok ==> final(w)@ == old(w)@ + cat_bytes(self.model())
                && r->Ok_0 == cat_bytes(self.model()).len(),
            r is Err ==> r->Err_0 is InvalidVarIntMoreThanVintMax,
    {
        let fields = self.elements();
        let start = w.len();
        let ghost ms = self.model();
        let mut i: usize = 0;
        while i < fields.len()
            invariant
                i <= fields@.len(),
                models_of::<ChaptersFields>(fields@) == ms,
                w@ == old(w)@ + cat_bytes(ms.take(i as int)),
                body_ok_rec(ms.take(i as int)),
            decreases fields@.len() - i,
        {
            proof {
                assert(models_of::<ChaptersFields>(fields@)[i as int] == ms[i as int]);
            }
            match fields[i].write_el(w) {
                Ok(_) => {},
                Err(e) => {
                    proof {
                        lemma_body_ok_forall(ms);
                    }
                    return Err(e);
                },
            }
            proof {
                assert(ms.take(i + 1) =~= ms.take(i as int).push(ms[i as int]));
                lemma_cat_snoc(ms.take(i as int), ms[i as int]);
            }
            i += 1;
        }
        proof {
            assert(ms.take(ms.len() as int) =~= ms);
            lemma_body_ok_forall(ms);
        }
        Ok(w.len() - start)
    }
}

/// One present child of a `Chapters`, paired with its value.
#[derive(Debug)]
pub enum ChaptersFields {
    EditionEntry(Ebml<EditionEntry>),
}

impl ChaptersFields {
    /// The child's element ID and its two ordering slots.
    #[verifier::rlimit(60)]
    #[verifier::spinoff_prover]
    pub fn index(&self) -> (r: (EbmlId, Option<u64>, u64))
        ensures
            r.0.spec_u64() == self.model().eid(),
            r.1 == self.model().idx(),
            r.2 == self.model().key(),
    {
        match self {
            Self::EditionEntry(val) => (EbmlId::EditionEntry, val.index, val.id),
        }
    }

    /// Write this child's frame.
    #[verifier::rlimit(60)]
    #[verifier::spinoff_prover]
    pub fn write_el(&self, w: &mut Vec<u8>) -> (r: Result<usize, MatroskaError>)
        ensures
            r is Ok <==> el_ok(self.model()),
            r is Ok ==> final(w)@ == old(w)@ + el_bytes(self.model())
                && r->Ok_0 == el_bytes(self.model()).len(),
            r is Err ==> final(w)@ == old(w)@ && r->Err_0 is InvalidVarIntMoreThanVintMax,
    {
        match self {
            Self::EditionEntry(val) => (*val.v).write_blocking(w),
        }
    }
}

impl EbmlField for ChaptersFields {
    open spec fn model(&self) -> FieldModel {
        match self {
            Self::EditionEntry(e) => FieldModel::Node { id: 0x45B9, idx: e.index, key: e.id, children: (*e.v).model() },
        }
    }

    fn sort_key(&self) -> (r: (Option<u64>, u64)) {
        match self {
            Self::EditionEntry(e) => (e.index, e.id),
        }
    }
}

/// The `EditionEntry` structural element.
#[derive(Debug)]
pub struct EditionEntry {
    pub size: u64,
    pub edition_uid: Option<Ebml<u64>>,
    pub edition_flag_hidden: Ebml<u64>,
    pub edition_flag_default: Ebml<u64>,
    pub edition_flag_ordered: Ebml<u64>,
    pub edition_display: Vec<Ebml<EditionDisplay>>,
    pub chapter_atom: Vec<Ebml<ChapterAtom>>,
}

/// The models of the `edition_display` children of a `EditionEntry`.
pub open spec fn editionentry_edition_display_models(s: Seq<Ebml<EditionDisplay>>) -> Seq<FieldModel> {
    s.map_values(|e: Ebml<EditionDisplay>| FieldModel::Node { id: 0x4520, idx: e.index, key: e.id, children: (*e.v).model() })
}

/// The models of the `chapter_atom` children of a `EditionEntry`.
pub open spec fn editionentry_chapter_atom_models(s: Seq<Ebml<ChapterAtom>>) -> Seq<FieldModel> {
    s.map_values(|e: Ebml<ChapterAtom>| FieldModel::Node { id: 0xB6, idx: e.index, key: e.id, children: (*e.v).model() })
}

impl EditionEntry {
    /// The models of the children, in declaration order.
    #[verifier::opaque]
    pub open spec fn raw_model(self) -> Seq<FieldModel>
    {
        (match self.edition_uid { Some(e) => seq![FieldModel::UInt { id: 0x45BC, idx: e.index, key: e.id, v: *e.v }], None => Seq::empty() })
            + seq![FieldModel::UInt { id: 0x45BD, idx: self.edition_flag_hidden.index, key: self.edition_flag_hidden.id, v: *self.edition_flag_hidden.v }]
            + seq![FieldModel::UInt { id: 0x45DB, idx: self.edition_flag_default.index, key: self.edition_flag_default.id, v: *self.edition_flag_default.v }]
            + seq![FieldModel::UInt { id: 0x45DD, idx: self.edition_flag_ordered.index, key: self.edition_flag_ordered.id, v: *self.edition_flag_ordered.v }]
            + editionentry_edition_display_models(self.edition_display@)
            + editionentry_chapter_atom_models(self.chapter_atom@)
    }

    /// The children in emission order.
    #[verifier::opaque]
    pub open spec fn model(self) -> Seq<FieldModel>
    {
        sort_fields_spec(self.raw_model())
    }

    /// Append the `edition_uid` child values to a field run.
    #[verifier::loop_isolation(false)]
    fn push_edition_uid(&self, v: &mut Vec<EditionEntryFields>)
        ensures
            models_of::<EditionEntryFields>(final(v)@) == models_of::<EditionEntryFields>(old(v)@) + (match &self.edition_uid { Some(e) => seq![FieldModel::UInt { id: 0x45BC, idx: e.index, key: e.id, v: *e.v }], None => Seq::empty() }),
    {
        match &self.edition_uid {
            Some(e) => {
                let ghost prevv = v@;
                v.push(EditionEntryFields::EditionUid(crate::dup_ebml_copy(e)));
                proof {
                    assert(models_of::<EditionEntryFields>(v@) =~= models_of::<EditionEntryFields>(prevv).push(v@.last().model()));
                    assert(models_of::<EditionEntryFields>(prevv).push(v@.last().model()) =~= models_of::<EditionEntryFields>(prevv) + (match &self.edition_uid { Some(e) => seq![FieldModel::UInt { id: 0x45BC, idx: e.index, key: e.id, v: *e.v }], None => Seq::empty() }));
                }
            },
            None => {
                proof {
                    assert(models_of::<EditionEntryFields>(v@) =~= models_of::<EditionEntryFields>(v@) + (match &self.edition_uid { Some(e) => seq![FieldModel::UInt { id: 0x45BC, idx: e.index, key: e.id, v: *e.v }], None => Seq::empty() }));
                }
            },
        }
    }

    /// Append the `edition_flag_hidden` child values to a field run.
    #[verifier::loop_isolation(false)]
    fn push_edition_flag_hidden(&self, v: &mut Vec<EditionEntryFields>)
        ensures
            models_of::<EditionEntryFields>(final(v)@) == models_of::<EditionEntryFields>(old(v)@) + seq![FieldModel::UInt { id: 0x45BD, idx: self.edition_flag_hidden.index, key: self.edition_flag_hidden.id, v: *self.edition_flag_hidden.v }],
    {
        let ghost prevv = v@;
        v.push(EditionEntryFields::EditionFlagHidden(crate::dup_ebml_copy(&self.edition_flag_hidden)));
        proof {
            assert(models_of::<EditionEntryFields>(v@) =~= models_of::<EditionEntryFields>(prevv).push(v@.last().model()));
            assert(models_of::<EditionEntryFields>(prevv).push(v@.last().model()) =~= models_of::<EditionEntryFields>(prevv) + seq![FieldModel::UInt { id: 0x45BD, idx: self.edition_flag_hidden.index, key: self.edition_flag_hidden.id, v: *self.edition_flag_hidden.v }]);
        }
    }

    /// Append the `edition_flag_default` child values to a field run.
    #[verifier::loop_isolation(false)]
    fn push_edition_flag_default(&self, v: &mut Vec<EditionEntryFields>)
        ensures
            models_of::<EditionEntryFields>(final(v)@) == models_of::<EditionEntryFields>(old(v)@) + seq![FieldModel::UInt { id: 0x45DB, idx: self.edition_flag_default.index, key: self.edition_flag_default.id, v: *self.edition_flag_default.v }],
    {
        let ghost prevv = v@;
        v.push(EditionEntryFields::EditionFlagDefault(crate::dup_ebml_copy(&self.edition_flag_default)));
        proof {
            assert(models_of::<EditionEntryFields>(v@) =~= models_of::<EditionEntryFields>(prevv).push(v@.last().model()));
            assert(models_of::<EditionEntryFields>(prevv).push(v@.last().model()) =~= models_of::<EditionEntryFields>(prevv) + seq![FieldModel::UInt { id: 0x45DB, idx: self.edition_flag_default.index, key: self.edition_flag_default.id, v: *self.edition_flag_default.v }]);
        }
    }

    /// Append the `edition_flag_ordered` child values to a field run.
    #[verifier::loop_isolation(false)]
    fn push_edition_flag_ordered(&self, v: &mut Vec<EditionEntryFields>)
        ensures
            models_of::<EditionEntryFields>(final(v)@) == models_of::<EditionEntryFields>(old(v)@) + seq![FieldModel::UInt { id: 0x45DD, idx: self.edition_flag_ordered.index, key: self.edition_flag_ordered.id, v: *self.edition_flag_ordered.v }],
    {
        let ghost prevv = v@;
        v.push(EditionEntryFields::EditionFlagOrdered(crate::dup_ebml_copy(&self.edition_flag_ordered)));
        proof {
            assert(models_of::<EditionEntryFields>(v@) =~= models_of::<EditionEntryFields>(prevv).push(v@.last().model()));
            assert(models_of::<EditionEntryFields>(prevv).push(v@.last().model()) =~= models_of::<EditionEntryFields>(prevv) + seq![FieldModel::UInt { id: 0x45DD, idx: self.edition_flag_ordered.index, key: self.edition_flag_ordered.id, v: *self.edition_flag_ordered.v }]);
        }
    }

    /// Append the `edition_display` child values to a field run.
    #[verifier::loop_isolation(false)]
    fn push_edition_display(&self, v: &mut Vec<EditionEntryFields>)
        ensures
            models_of::<EditionEntryFields>(final(v)@) == models_of::<EditionEntryFields>(old(v)@) + editionentry_edition_display_models(self.edition_display@),
    {
        let ghost base = models_of::<EditionEntryFields>(v@);
        let mut i: usize = 0;
        while i < self.edition_display.len()
            invariant
                i <= self.edition_display@.len(),
                models_of::<EditionEntryFields>(v@) == base + editionentry_edition_display_models(self.edition_display@.take(i as int)),
            decreases self.edition_display@.len() - i,
        {
            let e = &self.edition_display[i];
            let d = (&*e.v).duplicate();
            proof {
                reveal(EditionDisplay::model);
                assert(d.model() == (*e.v).model());
            }
            let ghost prevv = v@;
            v.push(EditionEntryFields::EditionDisplay(Ebml { index: e.index, v: Box::new(d), id: e.id }));
            proof {
                assert(self.edition_display@.take(i + 1) =~= self.edition_display@.take(i as int).push(self.edition_display@[i as int]));
                assert(models_of::<EditionEntryFields>(v@) =~= models_of::<EditionEntryFields>(prevv).push(v@.last().model()));
                assert(editionentry_edition_display_models(self.edition_display@.take(i + 1)) =~= editionentry_edition_display_models(self.edition_display@.take(i as int)).push(v@.last().model()));
                assert(base + editionentry_edition_display_models(self.edition_display@.take(i + 1)) =~= (base + editionentry_edition_display_models(self.edition_display@.take(i as int))).push(v@.last().model()));
            }
            i += 1;
        }
        proof {
            assert(self.edition_display@.take(self.edition_display@.len() as int) =~= self.edition_display@);
        }
    }

    /// Append the `chapter_atom` child values to a field run.
    #[verifier::loop_isolation(false)]
    fn push_chapter_atom(&self, v: &mut Vec<EditionEntryFields>)
        ensures
            models_of::<EditionEntryFields>(final(v)@) == models_of::<EditionEntryFields>(old(v)@) + editionentry_chapter_atom_models(self.chapter_atom@),
    {
        let ghost base = models_of::<EditionEntryFields>(v@);
        let mut i: usize = 0;
        while i < self.chapter_atom.len()
            invariant
                i <= self.chapter_atom@.len(),
                models_of::<EditionEntryFields>(v@) == base + editionentry_chapter_atom_models(self.chapter_atom@.take(i as int)),
            decreases self.chapter_atom@.len() - i,
        {
            let e = &self.chapter_atom[i];
            let d = (&*e.v).duplicate();
            proof {
                reveal(ChapterAtom::model);
                assert(d.model() == (*e.v).model());
            }
            let ghost prevv = v@;
            v.push(EditionEntryFields::ChapterAtom(Ebml { index: e.index, v: Box::new(d), id: e.id }));
            proof {
                assert(self.chapter_atom@.take(i + 1) =~= self.chapter_atom@.take(i as int).push(self.chapter_atom@[i as int]));
                assert(models_of::<EditionEntryFields>(v@) =~= models_of::<EditionEntryFields>(prevv).push(v@.last().model()));
                assert(editionentry_chapter_atom_models(self.chapter_atom@.take(i + 1)) =~= editionentry_chapter_atom_models(self.chapter_atom@.take(i as int)).push(v@.last().model()));
                assert(base + editionentry_chapter_atom_models(self.chapter_atom@.take(i + 1)) =~= (base + editionentry_chapter_atom_models(self.chapter_atom@.take(i as int))).push(v@.last().model()));
            }
            i += 1;
        }
        proof {
            assert(self.chapter_atom@.take(self.chapter_atom@.len() as int) =~= self.chapter_atom@);
        }
    }

    /// The present children, each paired with its ID, in emission order.
    #[verifier::rlimit(100)]
    #[verifier::spinoff_prover]
    pub fn elements(&self) -> (r: Vec<EditionEntryFields>)
        ensures
            models_of::<EditionEntryFields>(r@) == self.model(),
    {
        let mut v: Vec<EditionEntryFields> = Vec::new();
        proof {
            assert(models_of::<EditionEntryFields>(v@) =~= Seq::<FieldModel>::empty());
        }
        self.push_edition_uid(&mut v);
        self.push_edition_flag_hidden(&mut v);
        self.push_edition_flag_default(&mut v);
        self.push_edition_flag_ordered(&mut v);
        self.push_edition_display(&mut v);
        self.push_chapter_atom(&mut v);
        proof {
            reveal(EditionEntry::raw_model);
            reveal(EditionEntry::model);
            assert(Seq::<FieldModel>::empty() + (match &self.edition_uid { Some(e) => seq![FieldModel::UInt { id: 0x45BC, idx: e.index, key: e.id, v: *e.v }], None => Seq::empty() }) =~= (match &self.edition_uid { Some(e) => seq![FieldModel::UInt { id: 0x45BC, idx: e.index, key: e.id, v: *e.v }], None => Seq::empty() }));
            assert(models_of::<EditionEntryFields>(v@) == self.raw_model());
        }
        sort_fields(v)
    }

    /// A deep copy of the `edition_uid` slot.
    #[verifier::loop_isolation(false)]
    fn dup_edition_uid(&self) -> (r: Option<Ebml<u64>>)
        ensures
            (match &r { Some(e) => seq![FieldModel::UInt { id: 0x45BC, idx: e.index, key: e.id, v: *e.v }], None => Seq::empty() }) == (match &self.edition_uid { Some(e) => seq![FieldModel::UInt { id: 0x45BC, idx: e.index, key: e.id, v: *e.v }], None => Seq::empty() }),
    {
        match &self.edition_uid {
            Some(e) => Some(crate::dup_ebml_copy(e)),
            None => None,
        }
    }

    /// A deep copy of the `edition_flag_hidden` slot.
    #[verifier::loop_isolation(false)]
    fn dup_edition_flag_hidden(&self) -> (r: Ebml<u64>)
        ensures
            seq![FieldModel::UInt { id: 0x45BD, idx: r.index, key: r.id, v: *r.v }] == seq![FieldModel::UInt { id: 0x45BD, idx: self.edition_flag_hidden.index, key: self.edition_flag_hidden.id, v: *self.edition_flag_hidden.v }],
    {
        crate::dup_ebml_copy(&self.edition_flag_hidden)
    }

    /// A deep copy of the `edition_flag_default` slot.
    #[verifier::loop_isolation(false)]
    fn dup_edition_flag_default(&self) -> (r: Ebml<u64>)
        ensures
            seq![FieldModel::UInt { id: 0x45DB, idx: r.index, key: r.id, v: *r.v }] == seq![FieldModel::UInt { id: 0x45DB, idx: self.edition_flag_default.index, key: self.edition_flag_default.id, v: *self.edition_flag_default.v }],
    {
        crate::dup_ebml_copy(&self.edition_flag_default)
    }

    /// A deep copy of the `edition_flag_ordered` slot.
    #[verifier::loop_isolation(false)]
    fn dup_edition_flag_ordered(&self) -> (r: Ebml<u64>)
        ensures
            seq![FieldModel::UInt { id: 0x45DD, idx: r.index, key: r.id, v: *r.v }] == seq![FieldModel::UInt { id: 0x45DD, idx: self.edition_flag_ordered.index, key: self.edition_flag_ordered.id, v: *self.edition_flag_ordered.v }],
    {
        crate::dup_ebml_copy(&self.edition_flag_ordered)
    }

    /// A deep copy of the `edition_display` slot.
    #[verifier::loop_isolation(false)]
    fn dup_edition_display(&self) -> (r: Vec<Ebml<EditionDisplay>>)
        ensures
            editionentry_edition_display_models(r@) == editionentry_edition_display_models(self.edition_display@),
    {
        let mut out: Vec<Ebml<EditionDisplay>> = Vec::new();
        let mut i: usize = 0;
        while i < self.edition_display.len()
            invariant
                i <= self.edition_display@.len(),
                editionentry_edition_display_models(out@) == editionentry_edition_display_models(self.edition_display@.take(i as int)),
            decreases self.edition_display@.len() - i,
        {
            let e = &self.edition_display[i];
            let d = (&*e.v).duplicate();
            proof {
                reveal(EditionDisplay::model);
                assert(d.model() == (*e.v).model());
            }
            let ghost prevo = out@;
            out.push(Ebml { index: e.index, v: Box::new(d), id: e.id });
            proof {
                assert(self.edition_display@.take(i + 1) =~= self.edition_display@.take(i as int).push(self.edition_display@[i as int]));
                assert(out@.drop_last() =~= prevo);
                assert(self.edition_display@.take(i + 1).drop_last() =~= self.edition_display@.take(i as int));
                assert(FieldModel::Node { id: 0x4520, idx: (out@.last()).index, key: (out@.last()).id, children: (*(out@.last()).v).model() } == FieldModel::Node { id: 0x4520, idx: (self.edition_display@[i as int]).index, key: (self.edition_display@[i as int]).id, children: (*(self.edition_display@[i as int]).v).model() });
                assert(editionentry_edition_display_models(out@) =~= editionentry_edition_display_models(prevo).push(FieldModel::Node { id: 0x4520, idx: (out@.last()).index, key: (out@.last()).id, children: (*(out@.last()).v).model() }));
                assert(editionentry_edition_display_models(self.edition_display@.take(i + 1)) =~= editionentry_edition_display_models(self.edition_display@.take(i as int)).push(FieldModel::Node { id: 0x4520, idx: (self.edition_display@[i as int]).index, key: (self.edition_display@[i as int]).id, children: (*(self.edition_display@[i as int]).v).model() }));
            }
            i += 1;
        }
        proof {
            assert(self.edition_display@.take(self.edition_display@.len() as int) =~= self.edition_display@);
        }
        out
    }

    /// A deep copy of the `chapter_atom` slot.
    #[verifier::loop_isolation(false)]
    fn dup_chapter_atom(&self) -> (r: Vec<Ebml<ChapterAtom>>)
        ensures
            editionentry_chapter_atom_models(r@) == editionentry_chapter_atom_models(self.chapter_atom@),
    {
        let mut out: Vec<Ebml<ChapterAtom>> = Vec::new();
        let mut i: usize = 0;
        while i < self.chapter_atom.len()
            invariant
                i <= self.chapter_atom@.len(),
                editionentry_chapter_atom_models(out@) == editionentry_chapter_atom_models(self.chapter_atom@.take(i as int)),
            decreases self.chapter_atom@.len() - i,
        {
            let e = &self.chapter_atom[i];
            let d = (&*e.v).duplicate();
            proof {
                reveal(ChapterAtom::model);
                assert(d.model() == (*e.v).model());
            }
            let ghost prevo = out@;
            out.push(Ebml { index: e.index, v: Box::new(d), id: e.id });
            proof {
                assert(self.chapter_atom@.take(i + 1) =~= self.chapter_atom@.take(i as int).push(self.chapter_atom@[i as int]));
                assert(out@.drop_last() =~= prevo);
                assert(self.chapter_atom@.take(i + 1).drop_last() =~= self.chapter_atom@.take(i as int));
                assert(FieldModel::Node { id: 0xB6, idx: (out@.last()).index, key: (out@.last()).id, children: (*(out@.last()).v).model() } == FieldModel::Node { id: 0xB6, idx: (self.chapter_atom@[i as int]).index, key: (self.chapter_atom@[i as int]).id, children: (*(self.chapter_atom@[i as int]).v).model() });
                assert(editionentry_chapter_atom_models(out@) =~= editionentry_chapter_atom_models(prevo).push(FieldModel::Node { id: 0xB6, idx: (out@.last()).index, key: (out@.last()).id, children: (*(out@.last()).v).model() }));
                assert(editionentry_chapter_atom_models(self.chapter_atom@.take(i + 1)) =~= editionentry_chapter_atom_models(self.chapter_atom@.take(i as int)).push(FieldModel::Node { id: 0xB6, idx: (self.chapter_atom@[i as int]).index, key: (self.chapter_atom@[i as int]).id, children: (*(self.chapter_atom@[i as int]).v).model() }));
            }
            i += 1;
        }
        proof {
            assert(self.chapter_atom@.take(self.chapter_atom@.len() as int) =~= self.chapter_atom@);
        }
        out
    }

    /// A deep copy with the same children, positions, and keys.
    #[verifier::rlimit(100)]
    #[verifier::spinoff_prover]
    pub fn duplicate(&self) -> (r: Self)
        ensures
            r.raw_model() == self.raw_model(),
            r.size == self.size,
    {
        let r = EditionEntry {
            size: self.size,
            edition_uid: self.dup_edition_uid(),
            edition_flag_hidden: self.dup_edition_flag_hidden(),
            edition_flag_default: self.dup_edition_flag_default(),
            edition_flag_ordered: self.dup_edition_flag_ordered(),
            edition_display: self.dup_edition_display(),
            chapter_atom: self.dup_chapter_atom(),
        };
        proof {
            reveal(EditionEntry::raw_model);
            assert(r.raw_model() == self.raw_model());
        }
        r
    }
}

impl EditionEntry {
    /// Serialise the whole element: body to a scratch buffer first, then
    /// the header with the now-known length, then the body.
    pub fn write_blocking(&self, w: &mut Vec<u8>) -> (r: Result<usize, MatroskaError>)
        ensures
            r is Ok <==> body_ok_rec(self.model()) && cat_bytes(self.model()).len() < 0xFFFFFFFFFFFFFF,
            r is Ok ==> final(w)@ == old(w)@ + node_frame_bytes(0x45B9, cat_bytes(self.model()))
                && r->Ok_0 == node_frame_bytes(0x45B9, cat_bytes(self.model())).len(),
            r is Err ==> final(w)@ == old(w)@ && r->Err_0 is InvalidVarIntMoreThanVintMax,
    {
        let mut buf: Vec<u8> = Vec::new();
        match self.write_body_blocking(&mut buf) {
            Ok(_) => {},
            Err(e) => {
                return Err(e);
            },
        }
        let start = w.len();
        match crate::io::write_element_id_size(w, 0x45B9, buf.len() as u64) {
            Ok(_) => {},
            Err(e) => {
                return Err(e);
            },
        }
        w.append(&mut buf);
        Ok(w.len() - start)
    }

    /// Write this element's header with the given body size.
    pub fn write_header_blocking(&self, w: &mut Vec<u8>, size: u64) -> (r: Result<usize, MatroskaError>)
        ensures
            r is Ok <==> crate::io::size_encodable(size),
            r is Ok ==> final(w)@ == old(w)@ + crate::io::header_bytes(0x45B9, size)
                && r->Ok_0 == crate::io::header_bytes(0x45B9, size).len(),
            r is Err ==> final(w)@ == old(w)@ && r->Err_0 is InvalidVarIntMoreThanVintMax,
    {
        crate::io::write_element_id_size(w, 0x45B9, size)
    }

    /// Write the body: every present child, in emission order.
    #[verifier::loop_isolation(false)]
    #[verifier::rlimit(60)]
    #[verifier::spinoff_prover]
    pub fn write_body_blocking(&self, w: &mut Vec<u8>) -> (r: Result<usize, MatroskaError>)
        ensures
            r is Ok <==> body_ok_rec(self.model()),
            r is Ok ==> final(w)@ == old(w)@ + cat_bytes(self.model())
                && r->Ok_0 == cat_bytes(self.model()).len(),
            r is Err ==> r->Err_0 is InvalidVarIntMoreThanVintMax,
    {
        let fields = self.elements();
        let start = w.len();
        let ghost ms = self.model();
        let mut i: usize = 0;
        while i < fields.len()
            invariant
                i <= fields@.len(),
                models_of::<EditionEntryFields>(fields@) == ms,
                w@ == old(w)@ + cat_bytes(ms.take(i as int)),
                body_ok_rec(ms.take(i as int)),
            decreases fields@.len() - i,
        {
            proof {
                assert(models_of::<EditionEntryFields>(fields@)[i as int] == ms[i as int]);
            }
            match fields[i].write_el(w) {
                Ok(_) => {},
                Err(e) => {
                    proof {
                        lemma_body_ok_forall(ms);
                    }
                    return Err(e);
                },
            }
            proof {
                assert(ms.take(i + 1) =~= ms.take(i as int).push(ms[i as int]));
                lemma_cat_snoc(ms.take(i as int), ms[i as int]);
            }
            i += 1;
        }
        proof {
            assert(ms.take(ms.len() as int) =~= ms);
            lemma_body_ok_forall(ms);
        }
        Ok(w.len() - start)
    }
}

/// One present child of a `EditionEntry`, paired with its value.
#[derive(Debug)]
pub enum EditionEntryFields {
    EditionUid(Ebml<u64>),
    EditionFlagHidden(Ebml<u64>),
    EditionFlagDefault(Ebml<u64>),
    EditionFlagOrdered(Ebml<u64>),
    EditionDisplay(Ebml<EditionDisplay>),
    ChapterAtom(Ebml<ChapterAtom>),
}

impl EditionEntryFields {
    /// The child's element ID and its two ordering slots.
    #[verifier::rlimit(60)]
    #[verifier::spinoff_prover]
    pub fn index(&self) -> (r: (EbmlId, Option<u64>, u64))
        ensures
            r.0.spec_u64() == self.model().eid(),
            r.1 == self.model().idx(),
            r.2 == self.model().key(),
    {
        match self {
            Self::EditionUid(val) => (EbmlId::EditionUid, val.index, val.id),
            Self::EditionFlagHidden(val) => (EbmlId::EditionFlagHidden, val.index, val.id),
            Self::EditionFlagDefault(val) => (EbmlId::EditionFlagDefault, val.index, val.id),
            Self::EditionFlagOrdered(val) => (EbmlId::EditionFlagOrdered, val.index, val.id),
            Self::EditionDisplay(val) => (EbmlId::EditionDisplay, val.index, val.id),
            Self::ChapterAtom(val) => (EbmlId::ChapterAtom, val.index, val.id),
        }
    }

    /// Write this child's frame.
    #[verifier::rlimit(60)]
    #[verifier::spinoff_prover]
    pub fn write_el(&self, w: &mut Vec<u8>) -> (r: Result<usize, MatroskaError>)
        ensures
            r is Ok <==> el_ok(self.model()),
            r is Ok ==> final(w)@ == old(w)@ + el_bytes(self.model())
                && r->Ok_0 == el_bytes(self.model()).len(),
            r is Err ==> final(w)@ == old(w)@ && r->Err_0 is InvalidVarIntMoreThanVintMax,
    {
        match self {
            Self::EditionUid(val) => crate::io::write_el_uint(w, 0x45BC, &*val.v),
            Self::EditionFlagHidden(val) => crate::io::write_el_uint(w, 0x45BD, &*val.v),
            Self::EditionFlagDefault(val) => crate::io::write_el_uint(w, 0x45DB, &*val.v),
            Self::EditionFlagOrdered(val) => crate::io::write_el_uint(w, 0x45DD, &*val.v),
            Self::EditionDisplay(val) => (*val.v).write_blocking(w),
            Self::ChapterAtom(val) => (*val.v).write_blocking(w),
        }
    }
}

impl EbmlField for EditionEntryFields {
    open spec fn model(&self) -> FieldModel {
        match self {
            Self::EditionUid(e) => FieldModel::UInt { id: 0x45BC, idx: e.index, key: e.id, v: *e.v },
            Self::EditionFlagHidden(e) => FieldModel::UInt { id: 0x45BD, idx: e.index, key: e.id, v: *e.v },
            Self::EditionFlagDefault(e) => FieldModel::UInt { id: 0x45DB, idx: e.index, key: e.id, v: *e.v },
            Self::EditionFlagOrdered(e) => FieldModel::UInt { id: 0x45DD, idx: e.index, key: e.id, v: *e.v },
            Self::EditionDisplay(e) => FieldModel::Node { id: 0x4520, idx: e.index, key: e.id, children: (*e.v).model() },
            Self::ChapterAtom(e) => FieldModel::Node { id: 0xB6, idx: e.index, key: e.id, children: (*e.v).model() },
        }
    }

    fn sort_key(&self) -> (r: (Option<u64>, u64)) {
        match self {
            Self::EditionUid(e) => (e.index, e.id),
            Self::EditionFlagHidden(e) => (e.index, e.id),
            Self::EditionFlagDefault(e) => (e.index, e.id),
            Self::EditionFlagOrdered(e) => (e.index, e.id),
            Self::EditionDisplay(e) => (e.index, e.id),
            Self::ChapterAtom(e) => (e.index, e.id),
        }
    }
}

/// The `EditionDisplay` structural element.
#[derive(Debug)]
pub struct EditionDisplay {
    pub size: u64,
    pub edition_string: Ebml<String>,
    pub edition_language_ietf: Vec<Ebml<String>>,
}

/// The models of the `edition_language_ietf` children of a `EditionDisplay`.
pub open spec fn editiondisplay_edition_language_ietf_models(s: Seq<Ebml<String>>) -> Seq<FieldModel> {
    s.map_values(|e: Ebml<String>| FieldModel::Text { id: 0x45E4, idx: e.index, key: e.id, s: (*e.v)@ })
}

impl EditionDisplay {
    /// The models of the children, in declaration order.
    #[verifier::opaque]
    pub open spec fn raw_model(self) -> Seq<FieldModel>
    {
        seq![FieldModel::Text { id: 0x4521, idx: self.edition_string.index, key: self.edition_string.id, s: (*self.edition_string.v)@ }]
            + editiondisplay_edition_language_ietf_models(self.edition_language_ietf@)
    }

    /// The children in emission order.
    #[verifier::opaque]
    pub open spec fn model(self) -> Seq<FieldModel>
    {
        sort_fields_spec(self.raw_model())
    }

    /// Append the `edition_string` child values to a field run.
    #[verifier::loop_isolation(false)]
    fn push_edition_string(&self, v: &mut Vec<EditionDisplayFields>)
        ensures
            models_of::<EditionDisplayFields>(final(v)@) == models_of::<EditionDisplayFields>(old(v)@) + seq![FieldModel::Text { id: 0x4521, idx: self.edition_string.index, key: self.edition_string.id, s: (*self.edition_string.v)@ }],
    {
        let ghost prevv = v@;
        v.push(EditionDisplayFields::EditionString(crate::dup_ebml_string(&self.edition_string)));
        proof {
            assert(models_of::<EditionDisplayFields>(v@) =~= models_of::<EditionDisplayFields>(prevv).push(v@.last().model()));
            assert(models_of::<EditionDisplayFields>(prevv).push(v@.last().model()) =~= models_of::<EditionDisplayFields>(prevv) + seq![FieldModel::Text { id: 0x4521, idx: self.edition_string.index, key: self.edition_string.id, s: (*self.edition_string.v)@ }]);
        }
    }

    /// Append the `edition_language_ietf` child values to a field run.
    #[verifier::loop_isolation(false)]
    fn push_edition_language_ietf(&self, v: &mut Vec<EditionDisplayFields>)
        ensures
            models_of::<EditionDisplayFields>(final(v)@) == models_of::<EditionDisplayFields>(old(v)@) + editiondisplay_edition_language_ietf_models(self.edition_language_ietf@),
    {
        let ghost base = models_of::<EditionDisplayFields>(v@);
        let mut i: usize = 0;
        while i < self.edition_language_ietf.len()
            invariant
                i <= self.edition_language_ietf@.len(),
                models_of::<EditionDisplayFields>(v@) == base + editiondisplay_edition_language_ietf_models(self.edition_language_ietf@.take(i as int)),
            decreases self.edition_language_ietf@.len() - i,
        {
            let e = &self.edition_language_ietf[i];
            let ghost prevv = v@;
            v.push(EditionDisplayFields::EditionLanguageIetf(crate::dup_ebml_string(e)));
            proof {
                assert(self.edition_language_ietf@.take(i + 1) =~= self.edition_language_ietf@.take(i as int).push(self.edition_language_ietf@[i as int]));
                assert(models_of::<EditionDisplayFields>(v@) =~= models_of::<EditionDisplayFields>(prevv).push(v@.last().model()));
                assert(editiondisplay_edition_language_ietf_models(self.edition_language_ietf@.take(i + 1)) =~= editiondisplay_edition_language_ietf_models(self.edition_language_ietf@.take(i as int)).push(v@.last().model()));
                assert(base + editiondisplay_edition_language_ietf_models(self.edition_language_ietf@.take(i + 1)) =~= (base + editiondisplay_edition_language_ietf_models(self.edition_language_ietf@.take(i as int))).push(v@.last().model()));
            }
            i += 1;
        }
        proof {
            assert(self.edition_language_ietf@.take(self.edition_language_ietf@.len() as int) =~= self.edition_language_ietf@);
        }
    }

    /// The present children, each paired with its ID, in emission order.
    #[verifier::rlimit(100)]
    #[verifier::spinoff_prover]
    pub fn elements(&self) -> (r: Vec<EditionDisplayFields>)
        ensures
            models_of::<EditionDisplayFields>(r@) == self.model(),
    {
        let mut v: Vec<EditionDisplayFields> = Vec::new();
        proof {
            assert(models_of::<EditionDisplayFields>(v@) =~= Seq::<FieldModel>::empty());
        }
        self.push_edition_string(&mut v);
        self.push_edition_language_ietf(&mut v);
        proof {
            reveal(EditionDisplay::raw_model);
            reveal(EditionDisplay::model);
            assert(Seq::<FieldModel>::empty() + seq![FieldModel::Text { id: 0x4521, idx: self.edition_string.index, key: self.edition_string.id, s: (*self.edition_string.v)@ }] =~= seq![FieldModel::Text { id: 0x4521, idx: self.edition_string.index, key: self.edition_string.id, s: (*self.edition_string.v)@ }]);
            assert(models_of::<EditionDisplayFields>(v@) == self.raw_model());
        }
        sort_fields(v)
    }

    /// A deep copy of the `edition_string` slot.
    #[verifier::loop_isolation(false)]
    fn dup_edition_string(&self) -> (r: Ebml<String>)
        ensures
            seq![FieldModel::Text { id: 0x4521, idx: r.index, key: r.id, s: (*r.v)@ }] == seq![FieldModel::Text { id: 0x4521, idx: self.edition_string.index, key: self.edition_string.id, s: (*self.edition_string.v)@ }],
    {
        crate::dup_ebml_string(&self.edition_string)
    }

    /// A deep copy of the `edition_language_ietf` slot.
    #[verifier::loop_isolation(false)]
    fn dup_edition_language_ietf(&self) -> (r: Vec<Ebml<String>>)
        ensures
            editiondisplay_edition_language_ietf_models(r@) == editiondisplay_edition_language_ietf_models(self.edition_language_ietf@),
    {
        let mut out: Vec<Ebml<String>> = Vec::new();
        let mut i: usize = 0;
        while i < self.edition_language_ietf.len()
            invariant
                i <= self.edition_language_ietf@.len(),
                editiondisplay_edition_language_ietf_models(out@) == editiondisplay_edition_language_ietf_models(self.edition_language_ietf@.take(i as int)),
            decreases self.edition_language_ietf@.len() - i,
        {
            let e = &self.edition_language_ietf[i];
            let ghost prevo = out@;
            out.push(crate::dup_ebml_string(e));
            proof {
                assert(self.edition_language_ietf@.take(i + 1) =~= self.edition_language_ietf@.take(i as int).push(self.edition_language_ietf@[i as int]));
                assert(out@.drop_last() =~= prevo);
                assert(self.edition_language_ietf@.take(i + 1).drop_last() =~= self.edition_language_ietf@.take(i as int));
                assert(FieldModel::Text { id: 0x45E4, idx: (out@.last()).index, key: (out@.last()).id, s: (*(out@.last()).v)@ } == FieldModel::Text { id: 0x45E4, idx: (self.edition_language_ietf@[i as int]).index, key: (self.edition_language_ietf@[i as int]).id, s: (*(self.edition_language_ietf@[i as int]).v)@ });
                assert(editiondisplay_edition_language_ietf_models(out@) =~= editiondisplay_edition_language_ietf_models(prevo).push(FieldModel::Text { id: 0x45E4, idx: (out@.last()).index, key: (out@.last()).id, s: (*(out@.last()).v)@ }));
                assert(editiondisplay_edition_language_ietf_models(self.edition_language_ietf@.take(i + 1)) =~= editiondisplay_edition_language_ietf_models(self.edition_language_ietf@.take(i as int)).push(FieldModel::Text { id: 0x45E4, idx: (self.edition_language_ietf@[i as int]).index, key: (self.edition_language_ietf@[i as int]).id, s: (*(self.edition_language_ietf@[i as int]).v)@ }));
            }
            i += 1;
        }
        proof {
            assert(self.edition_language_ietf@.take(self.edition_language_ietf@.len() as int) =~= self.edition_language_ietf@);
        }
        out
    }

    /// A deep copy with the same children, positions, and keys.
    #[verifier::rlimit(100)]
    #[verifier::spinoff_prover]
    pub fn duplicate(&self) -> (r: Self)
        ensures
            r.raw_model() == self.raw_model(),
            r.size == self.size,
    {
        let r = EditionDisplay {
            size: self.size,
            edition_string: self.dup_edition_string(),
            edition_language_ietf: self.dup_edition_language_ietf(),
        };
        proof {
            reveal(EditionDisplay::raw_model);
            assert(r.raw_model() == self.raw_model());
        }
        r
    }
}

impl EditionDisplay {
    /// Serialise the whole element: body to a scratch buffer first, then
    /// the header with the now-known length, then the body.
    pub fn write_blocking(&self, w: &mut Vec<u8>) -> (r: Result<usize, MatroskaError>)
        ensures
            r is Ok <==> body_ok_rec(self.model()) && cat_bytes(self.model()).len() < 0xFFFFFFFFFFFFFF,
            r is Ok ==> final(w)@ == old(w)@ + node_frame_bytes(0x4520, cat_bytes(self.model()))
                && r->Ok_0 == node_frame_bytes(0x4520, cat_bytes(self.model())).len(),
            r is Err ==> final(w)@ == old(w)@ && r->Err_0 is InvalidVarIntMoreThanVintMax,
    {
        let mut buf: Vec<u8> = Vec::new();
        match self.write_body_blocking(&mut buf) {
            Ok(_) => {},
            Err(e) => {
                return Err(e);
            },
        }
        let start = w.len();
        match crate::io::write_element_id_size(w, 0x4520, buf.len() as u64) {
            Ok(_) => {},
            Err(e) => {
                return Err(e);
            },
        }
        w.append(&mut buf);
        Ok(w.len() - start)
    }

    /// Write this element's header with the given body size.
    pub fn write_header_blocking(&self, w: &mut Vec<u8>, size: u64) -> (r: Result<usize, MatroskaError>)
        ensures
            r is Ok <==> crate::io::size_encodable(size),
            r is Ok ==> final(w)@ == old(w)@ + crate::io::header_bytes(0x4520, size)
                && r->Ok_0 == crate::io::header_bytes(0x4520, size).len(),
            r is Err ==> final(w)@ == old(w)@ && r->Err_0 is InvalidVarIntMoreThanVintMax,
    {
        crate::io::write_element_id_size(w, 0x4520, size)
    }

    /// Write the body: every present child, in emission order.
    #[verifier::loop_isolation(false)]
    #[verifier::rlimit(60)]
    #[verifier::spinoff_prover]
    pub fn write_body_blocking(&self, w: &mut Vec<u8>) -> (r: Result<usize, MatroskaError>)
        ensures
            r is Ok <==> body_ok_rec(self.model()),
            r is Ok ==> final(w)@ == old(w)@ + cat_bytes(self.model())
                && r->Ok_0 == cat_bytes(self.model()).len(),
            r is Err ==> r->Err_0 is InvalidVarIntMoreThanVintMax,
    {
        let fields = self.elements();
        let start = w.len();
        let ghost ms = self.model();
        let mut i: usize = 0;
        while i < fields.len()
            invariant
                i <= fields@.len(),
                models_of::<EditionDisplayFields>(fields@) == ms,
                w@ == old(w)@ + cat_bytes(ms.take(i as int)),
                body_ok_rec(ms.take(i as int)),
            decreases fields@.len() - i,
        {
            proof {
                assert(models_of::<EditionDisplayFields>(fields@)[i as int] == ms[i as int]);
            }
            match fields[i].write_el(w) {
                Ok(_) => {},
                Err(e) => {
                    proof {
                        lemma_body_ok_forall(ms);
                    }
                    return Err(e);
                },
            }
            proof {
                assert(ms.take(i + 1) =~= ms.take(i as int).push(ms[i as int]));
                lemma_cat_snoc(ms.take(i as int), ms[i as int]);
            }
            i += 1;
        }
        proof {
            assert(ms.take(ms.len() as int) =~= ms);
            lemma_body_ok_forall(ms);
        }
        Ok(w.len() - start)
    }
}

/// One present child of a `EditionDisplay`, paired with its value.
#[derive(Debug)]
pub enum EditionDisplayFields {
    EditionString(Ebml<String>),
    EditionLanguageIetf(Ebml<String>),
}

impl EditionDisplayFields {
    /// The child's element ID and its two ordering slots.
    #[verifier::rlimit(60)]
    #[verifier::spinoff_prover]
    pub fn index(&self) -> (r: (EbmlId, Option<u64>, u64))
        ensures
            r.0.spec_u64() == self.model().eid(),
            r.1 == self.model().idx(),
            r.2 == self.model().key(),
    {
        match self {
            Self::EditionString(val) => (EbmlId::EditionString, val.index, val.id),
            Self::EditionLanguageIetf(val) => (EbmlId::EditionLanguageIetf, val.index, val.id),
        }
    }

    /// Write this child's frame.
    #[verifier::rlimit(60)]
    #[verifier::spinoff_prover]
    pub fn write_el(&self, w: &mut Vec<u8>) -> (r: Result<usize, MatroskaError>)
        ensures
            r is Ok <==> el_ok(self.model()),
            r is Ok ==> final(w)@ == old(w)@ + el_bytes(self.model())
                && r->Ok_0 == el_bytes(self.model()).len(),
            r is Err ==> final(w)@ == old(w)@ && r->Err_0 is InvalidVarIntMoreThanVintMax,
    {
        match self {
            Self::EditionString(val) => crate::io::write_el_utf8(w, 0x4521, (*val.v).as_str()),
            Self::EditionLanguageIetf(val) => crate::io::write_el_string(w, 0x45E4, (*val.v).as_str()),
        }
    }
}

impl EbmlField for EditionDisplayFields {
    open spec fn model(&self) -> FieldModel {
        match self {
            Self::EditionString(e) => FieldModel::Text { id: 0x4521, idx: e.index, key: e.id, s: (*e.v)@ },
            Self::EditionLanguageIetf(e) => FieldModel::Text { id: 0x45E4, idx: e.index, key: e.id, s: (*e.v)@ },
        }
    }

    fn sort_key(&self) -> (r: (Option<u64>, u64)) {
        match self {
            Self::EditionString(e) => (e.index, e.id),
            Self::EditionLanguageIetf(e) => (e.index, e.id),
        }
    }
}

/// The `ChapterAtom` structural element.
#[derive(Debug)]
pub struct ChapterAtom {
    pub size: u64,
    pub chapter_uid: Ebml<u64>,
    pub chapter_string_uid: Option<Ebml<String>>,
    pub chapter_time_start: Ebml<u64>,
    pub chapter_time_end: Option<Ebml<u64>>,
    pub chapter_flag_hidden: Ebml<u64>,
    pub chapter_flag_enabled: Ebml<u64>,
    pub chapter_segment_uuid: Option<Ebml<Vec<u8>>>,
    pub chapter_skip_type: Option<Ebml<u64>>,
    pub chapter_segment_edition_uid: Option<Ebml<u64>>,
    pub chapter_physical_equiv: Option<Ebml<u64>>,
    pub chapter_track: Option<Ebml<ChapterTrack>>,
    pub chapter_display: Vec<Ebml<ChapterDisplay>>,
    pub chap_process: Vec<Ebml<ChapProcess>>,
}

/// The models of the `chapter_display` children of a `ChapterAtom`.
pub open spec fn chapteratom_chapter_display_models(s: Seq<Ebml<ChapterDisplay>>) -> Seq<FieldModel> {
    s.map_values(|e: Ebml<ChapterDisplay>| FieldModel::Node { id: 0x80, idx: e.index, key: e.id, children: (*e.v).model() })
}

/// The models of the `chap_process` children of a `ChapterAtom`.
pub open spec fn chapteratom_chap_process_models(s: Seq<Ebml<ChapProcess>>) -> Seq<FieldModel> {
    s.map_values(|e: Ebml<ChapProcess>| FieldModel::Node { id: 0x6944, idx: e.index, key: e.id, children: (*e.v).model() })
}

impl ChapterAtom {
    /// The models of the children, in declaration order.
    #[verifier::opaque]
    pub open spec fn raw_model(self) -> Seq<FieldModel>
    {
        seq![FieldModel::UInt { id: 0x73C4, idx: self.chapter_uid.index, key: self.chapter_uid.id, v: *self.chapter_uid.v }]
            + (match self.chapter_string_uid { Some(e) => seq![FieldModel::Text { id: 0x5654, idx: e.index, key: e.id, s: (*e.v)@ }], None => Seq::empty() })
            + seq![FieldModel::UInt { id: 0x91, idx: self.chapter_time_start.index, key: self.chapter_time_start.id, v: *self.chapter_time_start.v }]
            + (match self.chapter_time_end { Some(e) => seq![FieldModel::UInt { id: 0x92, idx: e.index, key: e.id, v: *e.v }], None => Seq::empty() })
            + seq![FieldModel::UInt { id: 0x98, idx: self.chapter_flag_hidden.index, key: self.chapter_flag_hidden.id, v: *self.chapter_flag_hidden.v }]
            + seq![FieldModel::UInt { id: 0x4598, idx: self.chapter_flag_enabled.index, key: self.chapter_flag_enabled.id, v: *self.chapter_flag_enabled.v }]
            + (match self.chapter_segment_uuid { Some(e) => seq![FieldModel::Bin { id: 0x6E67, idx: e.index, key: e.id, b: (*e.v)@ }], None => Seq::empty() })
            + (match self.chapter_skip_type { Some(e) => seq![FieldModel::UInt { id: 0x4588, idx: e.index, key: e.id, v: *e.v }], None => Seq::empty() })
            + (match self.chapter_segment_edition_uid { Some(e) => seq![FieldModel::UInt { id: 0x6EBC, idx: e.index, key: e.id, v: *e.v }], None => Seq::empty() })
            + (match self.chapter_physical_equiv { Some(e) => seq![FieldModel::UInt { id: 0x63C3, idx: e.index, key: e.id, v: *e.v }], None => Seq::empty() })
            + (match self.chapter_track { Some(e) => seq![FieldModel::Node { id: 0x8F, idx: e.index, key: e.id, children: (*e.v).model() }], None => Seq::empty() })
            + chapteratom_chapter_display_models(self.chapter_display@)
            + chapteratom_chap_process_models(self.chap_process@)
    }

    /// The children in emission order.
    #[verifier::opaque]
    pub open spec fn model(self) -> Seq<FieldModel>
    {
        sort_fields_spec(self.raw_model())
    }

    /// Append the `chapter_uid` child values to a field run.
    #[verifier::loop_isolation(false)]
    fn push_chapter_uid(&self, v: &mut Vec<ChapterAtomFields>)
        ensures
            models_of::<ChapterAtomFields>(final(v)@) == models_of::<ChapterAtomFields>(old(v)@) + seq![FieldModel::UInt { id: 0x73C4, idx: self.chapter_uid.index, key: self.chapter_uid.id, v: *self.chapter_uid.v }],
    {
        let ghost prevv = v@;
        v.push(ChapterAtomFields::ChapterUid(crate::dup_ebml_copy(&self.chapter_uid)));
        proof {
            assert(models_of::<ChapterAtomFields>(v@) =~= models_of::<ChapterAtomFields>(prevv).push(v@.last().model()));
            assert(models_of::<ChapterAtomFields>(prevv).push(v@.last().model()) =~= models_of::<ChapterAtomFields>(prevv) + seq![FieldModel::UInt { id: 0x73C4, idx: self.chapter_uid.index, key: self.chapter_uid.id, v: *self.chapter_uid.v }]);
        }
    }

    /// Append the `chapter_string_uid` child values to a field run.
    #[verifier::loop_isolation(false)]
    fn push_chapter_string_uid(&self, v: &mut Vec<ChapterAtomFields>)
        ensures
            models_of::<ChapterAtomFields>(final(v)@) == models_of::<ChapterAtomFields>(old(v)@) + (match &self.chapter_string_uid { Some(e) => seq![FieldModel::Text { id: 0x5654, idx: e.index, key: e.id, s: (*e.v)@ }], None => Seq::empty() }),
    {
        match &self.chapter_string_uid {
            Some(e) => {
                let ghost prevv = v@;
                v.push(ChapterAtomFields::ChapterStringUid(crate::dup_ebml_string(e)));
                proof {
                    assert(models_of::<ChapterAtomFields>(v@) =~= models_of::<ChapterAtomFields>(prevv).push(v@.last().model()));
                    assert(models_of::<ChapterAtomFields>(prevv).push(v@.last().model()) =~= models_of::<ChapterAtomFields>(prevv) + (match &self.chapter_string_uid { Some(e) => seq![FieldModel::Text { id: 0x5654, idx: e.index, key: e.id, s: (*e.v)@ }], None => Seq::empty() }));
                }
            },
            None => {
                proof {
                    assert(models_of::<ChapterAtomFields>(v@) =~= models_of::<ChapterAtomFields>(v@) + (match &self.chapter_string_uid { Some(e) => seq![FieldModel::Text { id: 0x5654, idx: e.index, key: e.id, s: (*e.v)@ }], None => Seq::empty() }));
                }
            },
        }
    }

    /// Append the `chapter_time_start` child values to a field run.
    #[verifier::loop_isolation(false)]
    fn push_chapter_time_start(&self, v: &mut Vec<ChapterAtomFields>)
        ensures
            models_of::<ChapterAtomFields>(final(v)@) == models_of::<ChapterAtomFields>(old(v)@) + seq![FieldModel::UInt { id: 0x91, idx: self.chapter_time_start.index, key: self.chapter_time_start.id, v: *self.chapter_time_start.v }],
    {
        let ghost prevv = v@;
        v.push(ChapterAtomFields::ChapterTimeStart(crate::dup_ebml_copy(&self.chapter_time_start)));
        proof {
            assert(models_of::<ChapterAtomFields>(v@) =~= models_of::<ChapterAtomFields>(prevv).push(v@.last().model()));
            assert(models_of::<ChapterAtomFields>(prevv).push(v@.last().model()) =~= models_of::<ChapterAtomFields>(prevv) + seq![FieldModel::UInt { id: 0x91, idx: self.chapter_time_start.index, key: self.chapter_time_start.id, v: *self.chapter_time_start.v }]);
        }
    }

    /// Append the `chapter_time_end` child values to a field run.
    #[verifier::loop_isolation(false)]
    fn push_chapter_time_end(&self, v: &mut Vec<ChapterAtomFields>)
        ensures
            models_of::<ChapterAtomFields>(final(v)@) == models_of::<ChapterAtomFields>(old(v)@) + (match &self.chapter_time_end { Some(e) => seq![FieldModel::UInt { id: 0x92, idx: e.index, key: e.id, v: *e.v }], None => Seq::empty() }),
    {
        match &self.chapter_time_end {
            Some(e) => {
                let ghost prevv = v@;
                v.push(ChapterAtomFields::ChapterTimeEnd(crate::dup_ebml_copy(e)));
                proof {
                    assert(models_of::<ChapterAtomFields>(v@) =~= models_of::<ChapterAtomFields>(prevv).push(v@.last().model()));
                    assert(models_of::<ChapterAtomFields>(prevv).push(v@.last().model()) =~= models_of::<ChapterAtomFields>(prevv) + (match &self.chapter_time_end { Some(e) => seq![FieldModel::UInt { id: 0x92, idx: e.index, key: e.id, v: *e.v }], None => Seq::empty() }));
                }
            },
            None => {
                proof {
                    assert(models_of::<ChapterAtomFields>(v@) =~= models_of::<ChapterAtomFields>(v@) + (match &self.chapter_time_end { Some(e) => seq![FieldModel::UInt { id: 0x92, idx: e.index, key: e.id, v: *e.v }], None => Seq::empty() }));
                }
            },
        }
    }

    /// Append the `chapter_flag_hidden` child values to a field run.
    #[verifier::loop_isolation(false)]
    fn push_chapter_flag_hidden(&self, v: &mut Vec<ChapterAtomFields>)
        ensures
            models_of::<ChapterAtomFields>(final(v)@) == models_of::<ChapterAtomFields>(old(v)@) + seq![FieldModel::UInt { id: 0x98, idx: self.chapter_flag_hidden.index, key: self.chapter_flag_hidden.id, v: *self.chapter_flag_hidden.v }],
    {
        let ghost prevv = v@;
        v.push(ChapterAtomFields::ChapterFlagHidden(crate::dup_ebml_copy(&self.chapter_flag_hidden)));
        proof {
            assert(models_of::<ChapterAtomFields>(v@) =~= models_of::<ChapterAtomFields>(prevv).push(v@.last().model()));
            assert(models_of::<ChapterAtomFields>(prevv).push(v@.last().model()) =~= models_of::<ChapterAtomFields>(prevv) + seq![FieldModel::UInt { id: 0x98, idx: self.chapter_flag_hidden.index, key: self.chapter_flag_hidden.id, v: *self.chapter_flag_hidden.v }]);
        }
    }

    /// Append the `chapter_flag_enabled` child values to a field run.
    #[verifier::loop_isolation(false)]
    fn push_chapter_flag_enabled(&self, v: &mut Vec<ChapterAtomFields>)
        ensures
            models_of::<ChapterAtomFields>(final(v)@) == models_of::<ChapterAtomFields>(old(v)@) + seq![FieldModel::UInt { id: 0x4598, idx: self.chapter_flag_enabled.index, key: self.chapter_flag_enabled.id, v: *self.chapter_flag_enabled.v }],
    {
        let ghost prevv = v@;
        v.push(ChapterAtomFields::ChapterFlagEnabled(crate::dup_ebml_copy(&self.chapter_flag_enabled)));
        proof {
            assert(models_of::<ChapterAtomFields>(v@) =~= models_of::<ChapterAtomFields>(prevv).push(v@.last().model()));
            assert(models_of::<ChapterAtomFields>(prevv).push(v@.last().model()) =~= models_of::<ChapterAtomFields>(prevv) + seq![FieldModel::UInt { id: 0x4598, idx: self.chapter_flag_enabled.index, key: self.chapter_flag_enabled.id, v: *self.chapter_flag_enabled.v }]);
        }
    }

    /// Append the `chapter_segment_uuid` child values to a field run.
    #[verifier::loop_isolation(false)]
    fn push_chapter_segment_uuid(&self, v: &mut Vec<ChapterAtomFields>)
        ensures
            models_of::<ChapterAtomFields>(final(v)@) == models_of::<ChapterAtomFields>(old(v)@) + (match &self.chapter_segment_uuid { Some(e) => seq![FieldModel::Bin { id: 0x6E67, idx: e.index, key: e.id, b: (*e.v)@ }], None => Seq::empty() }),
    {
        match &self.chapter_segment_uuid {
            Some(e) => {
                let ghost prevv = v@;
                v.push(ChapterAtomFields::ChapterSegmentUuid(crate::dup_ebml_bytes(e)));
                proof {
                    assert(models_of::<ChapterAtomFields>(v@) =~= models_of::<ChapterAtomFields>(prevv).push(v@.last().model()));
                    assert(models_of::<ChapterAtomFields>(prevv).push(v@.last().model()) =~= models_of::<ChapterAtomFields>(prevv) + (match &self.chapter_segment_uuid { Some(e) => seq![FieldModel::Bin { id: 0x6E67, idx: e.index, key: e.id, b: (*e.v)@ }], None => Seq::empty() }));
                }
            },
            None => {
                proof {
                    assert(models_of::<ChapterAtomFields>(v@) =~= models_of::<ChapterAtomFields>(v@) + (match &self.chapter_segment_uuid { Some(e) => seq![FieldModel::Bin { id: 0x6E67, idx: e.index, key: e.id, b: (*e.v)@ }], None => Seq::empty() }));
                }
            },
        }
    }

    /// Append the `chapter_skip_type` child values to a field run.
    #[verifier::loop_isolation(false)]
    fn push_chapter_skip_type(&self, v: &mut Vec<ChapterAtomFields>)
        ensures
            models_of::<ChapterAtomFields>(final(v)@) == models_of::<ChapterAtomFields>(old(v)@) + (match &self.chapter_skip_type { Some(e) => seq![FieldModel::UInt { id: 0x4588, idx: e.index, key: e.id, v: *e.v }], None => Seq::empty() }),
    {
        match &self.chapter_skip_type {
            Some(e) => {
                let ghost prevv = v@;
                v.push(ChapterAtomFields::ChapterSkipType(crate::dup_ebml_copy(e)));
                proof {
                    assert(models_of::<ChapterAtomFields>(v@) =~= models_of::<ChapterAtomFields>(prevv).push(v@.last().model()));
                    assert(models_of::<ChapterAtomFields>(prevv).push(v@.last().model()) =~= models_of::<ChapterAtomFields>(prevv) + (match &self.chapter_skip_type { Some(e) => seq![FieldModel::UInt { id: 0x4588, idx: e.index, key: e.id, v: *e.v }], None => Seq::empty() }));
                }
            },
            None => {
                proof {
                    assert(models_of::<ChapterAtomFields>(v@) =~= models_of::<ChapterAtomFields>(v@) + (match &self.chapter_skip_type { Some(e) => seq![FieldModel::UInt { id: 0x4588, idx: e.index, key: e.id, v: *e.v }], None => Seq::empty() }));
                }
            },
        }
    }

    /// Append the `chapter_segment_edition_uid` child values to a field run.
    #[verifier::loop_isolation(false)]
    fn push_chapter_segment_edition_uid(&self, v: &mut Vec<ChapterAtomFields>)
        ensures
            models_of::<ChapterAtomFields>(final(v)@) == models_of::<ChapterAtomFields>(old(v)@) + (match &self.chapter_segment_edition_uid { Some(e) => seq![FieldModel::UInt { id: 0x6EBC, idx: e.index, key: e.id, v: *e.v }], None => Seq::empty() }),
    {
        match &self.chapter_segment_edition_uid {
            Some(e) => {
                let ghost prevv = v@;
                v.push(ChapterAtomFields::ChapterSegmentEditionUid(crate::dup_ebml_copy(e)));
                proof {
                    assert(models_of::<ChapterAtomFields>(v@) =~= models_of::<ChapterAtomFields>(prevv).push(v@.last().model()));
                    assert(models_of::<ChapterAtomFields>(prevv).push(v@.last().model()) =~= models_of::<ChapterAtomFields>(prevv) + (match &self.chapter_segment_edition_uid { Some(e) => seq![FieldModel::UInt { id: 0x6EBC, idx: e.index, key: e.id, v: *e.v }], None => Seq::empty() }));
                }
            },
            None => {
                proof {
                    assert(models_of::<ChapterAtomFields>(v@) =~= models_of::<ChapterAtomFields>(v@) + (match &self.chapter_segment_edition_uid { Some(e) => seq![FieldModel::UInt { id: 0x6EBC, idx: e.index, key: e.id, v: *e.v }], None => Seq::empty() }));
                }
            },
        }
    }

    /// Append the `chapter_physical_equiv` child values to a field run.
    #[verifier::loop_isolation(false)]
    fn push_chapter_physical_equiv(&self, v: &mut Vec<ChapterAtomFields>)
        ensures
            models_of::<ChapterAtomFields>(final(v)@) == models_of::<ChapterAtomFields>(old(v)@) + (match &self.chapter_physical_equiv { Some(e) => seq![FieldModel::UInt { id: 0x63C3, idx: e.index, key: e.id, v: *e.v }], None => Seq::empty() }),
    {
        match &self.chapter_physical_equiv {
            Some(e) => {
                let ghost prevv = v@;
                v.push(ChapterAtomFields::ChapterPhysicalEquiv(crate::dup_ebml_copy(e)));
                proof {
                    assert(models_of::<ChapterAtomFields>(v@) =~= models_of::<ChapterAtomFields>(prevv).push(v@.last().model()));
                    assert(models_of::<ChapterAtomFields>(prevv).push(v@.last().model()) =~= models_of::<ChapterAtomFields>(prevv) + (match &self.chapter_physical_equiv { Some(e) => seq![FieldModel::UInt { id: 0x63C3, idx: e.index, key: e.id, v: *e.v }], None => Seq::empty() }));
                }
            },
            None => {
                proof {
                    assert(models_of::<ChapterAtomFields>(v@) =~= models_of::<ChapterAtomFields>(v@) + (match &self.chapter_physical_equiv { Some(e) => seq![FieldModel::UInt { id: 0x63C3, idx: e.index, key: e.id, v: *e.v }], None => Seq::empty() }));
                }
            },
        }
    }

    /// Append the `chapter_track` child values to a field run.
    #[verifier::loop_isolation(false)]
    fn push_chapter_track(&self, v: &mut Vec<ChapterAtomFields>)
        ensures
            models_of::<ChapterAtomFields>(final(v)@) == models_of::<ChapterAtomFields>(old(v)@) + (match &self.chapter_track { Some(e) => seq![FieldModel::Node { id: 0x8F, idx: e.index, key: e.id, children: (*e.v).model() }], None => Seq::empty() }),
    {
        match &self.chapter_track {
            Some(e) => {
                let d = (&*e.v).duplicate();
                proof {
                    reveal(ChapterTrack::model);
                    assert(d.model() == (*e.v).model());
                }
                let ghost prevv = v@;
                v.push(ChapterAtomFields::ChapterTrack(Ebml { index: e.index, v: Box::new(d), id: e.id }));
                proof {
                    assert(models_of::<ChapterAtomFields>(v@) =~= models_of::<ChapterAtomFields>(prevv).push(v@.last().model()));
                    assert(models_of::<ChapterAtomFields>(prevv).push(v@.last().model()) =~= models_of::<ChapterAtomFields>(prevv) + (match &self.chapter_track { Some(e) => seq![FieldModel::Node { id: 0x8F, idx: e.index, key: e.id, children: (*e.v).model() }], None => Seq::empty() }));
                }
            },
            None => {
                proof {
                    assert(models_of::<ChapterAtomFields>(v@) =~= models_of::<ChapterAtomFields>(v@) + (match &self.chapter_track { Some(e) => seq![FieldModel::Node { id: 0x8F, idx: e.index, key: e.id, children: (*e.v).model() }], None => Seq::empty() }));
                }
            },
        }
    }

    /// Append the `chapter_display` child values to a field run.
    #[verifier::loop_isolation(false)]
    fn push_chapter_display(&self, v: &mut Vec<ChapterAtomFields>)
        ensures
            models_of::<ChapterAtomFields>(final(v)@) == models_of::<ChapterAtomFields>(old(v)@) + chapteratom_chapter_display_models(self.chapter_display@),
    {
        let ghost base = models_of::<ChapterAtomFields>(v@);
        let mut i: usize = 0;
        while i < self.chapter_display.len()
            invariant
                i <= self.chapter_display@.len(),
                models_of::<ChapterAtomFields>(v@) == base + chapteratom_chapter_display_models(self.chapter_display@.take(i as int)),
            decreases self.chapter_display@.len() - i,
        {
            let e = &self.chapter_display[i];
            let d = (&*e.v).duplicate();
            proof {
                reveal(ChapterDisplay::model);
                assert(d.model() == (*e.v).model());
            }
            let ghost prevv = v@;
            v.push(ChapterAtomFields::ChapterDisplay(Ebml { index: e.index, v: Box::new(d), id: e.id }));
            proof {
                assert(self.chapter_display@.take(i + 1) =~= self.chapter_display@.take(i as int).push(self.chapter_display@[i as int]));
                assert(models_of::<ChapterAtomFields>(v@) =~= models_of::<ChapterAtomFields>(prevv).push(v@.last().model()));
                assert(chapteratom_chapter_display_models(self.chapter_display@.take(i + 1)) =~= chapteratom_chapter_display_models(self.chapter_display@.take(i as int)).push(v@.last().model()));
                assert(base + chapteratom_chapter_display_models(self.chapter_display@.take(i + 1)) =~= (base + chapteratom_chapter_display_models(self.chapter_display@.take(i as int))).push(v@.last().model()));
            }
            i += 1;
        }
        proof {
            assert(self.chapter_display@.take(self.chapter_display@.len() as int) =~= self.chapter_display@);
        }
    }

    /// Append the `chap_process` child values to a field run.
    #[verifier::loop_isolation(false)]
    fn push_chap_process(&self, v: &mut Vec<ChapterAtomFields>)
        ensures
            models_of::<ChapterAtomFields>(final(v)@) == models_of::<ChapterAtomFields>(old(v)@) + chapteratom_chap_process_models(self.chap_process@),
    {
        let ghost base = models_of::<ChapterAtomFields>(v@);
        let mut i: usize = 0;
        while i < self.chap_process.len()
            invariant
                i <= self.chap_process@.len(),
                models_of::<ChapterAtomFields>(v@) == base + chapteratom_chap_process_models(self.chap_process@.take(i as int)),
            decreases self.chap_process@.len() - i,
        {
            let e = &self.chap_process[i];
            let d = (&*e.v).duplicate();
            proof {
                reveal(ChapProcess::model);
                assert(d.model() == (*e.v).model());
            }
            let ghost prevv = v@;
            v.push(ChapterAtomFields::ChapProcess(Ebml { index: e.index, v: Box::new(d), id: e.id }));
            proof {
                assert(self.chap_process@.take(i + 1) =~= self.chap_process@.take(i as int).push(self.chap_process@[i as int]));
                assert(models_of::<ChapterAtomFields>(v@) =~= models_of::<ChapterAtomFields>(prevv).push(v@.last().model()));
                assert(chapteratom_chap_process_models(self.chap_process@.take(i + 1)) =~= chapteratom_chap_process_models(self.chap_process@.take(i as int)).push(v@.last().model()));
                assert(base + chapteratom_chap_process_models(self.chap_process@.take(i + 1)) =~= (base + chapteratom_chap_process_models(self.chap_process@.take(i as int))).push(v@.last().model()));
            }
            i += 1;
        }
        proof {
            assert(self.chap_process@.take(self.chap_process@.len() as int) =~= self.chap_process@);
        }
    }

    /// The present children, each paired with its ID, in emission order.
    #[verifier::rlimit(100)]
    #[verifier::spinoff_prover]
    pub fn elements(&self) -> (r: Vec<ChapterAtomFields>)
        ensures
            models_of::<ChapterAtomFields>(r@) == self.model(),
    {
        let mut v: Vec<ChapterAtomFields> = Vec::new();
        proof {
            assert(models_of::<ChapterAtomFields>(v@) =~= Seq::<FieldModel>::empty());
        }
        self.push_chapter_uid(&mut v);
        self.push_chapter_string_uid(&mut v);
        self.push_chapter_time_start(&mut v);
        self.push_chapter_time_end(&mut v);
        self.push_chapter_flag_hidden(&mut v);
        self.push_chapter_flag_enabled(&mut v);
        self.push_chapter_segment_uuid(&mut v);
        self.push_chapter_skip_type(&mut v);
        self.push_chapter_segment_edition_uid(&mut v);
        self.push_chapter_physical_equiv(&mut v);
        self.push_chapter_track(&mut v);
        self.push_chapter_display(&mut v);
        self.push_chap_process(&mut v);
        proof {
            reveal(ChapterAtom::raw_model);
            reveal(ChapterAtom::model);
            assert(Seq::<FieldModel>::empty() + seq![FieldModel::UInt { id: 0x73C4, idx: self.chapter_uid.index, key: self.chapter_uid.id, v: *self.chapter_uid.v }] =~= seq![FieldModel::UInt { id: 0x73C4, idx: self.chapter_uid.index, key: self.chapter_uid.id, v: *self.chapter_uid.v }]);
            assert(models_of::<ChapterAtomFields>(v@) == self.raw_model());
        }
        sort_fields(v)
    }

    /// A deep copy of the `chapter_uid` slot.
    #[verifier::loop_isolation(false)]
    fn dup_chapter_uid(&self) -> (r: Ebml<u64>)
        ensures
            seq![FieldModel::UInt { id: 0x73C4, idx: r.index, key: r.id, v: *r.v }] == seq![FieldModel::UInt { id: 0x73C4, idx: self.chapter_uid.index, key: self.chapter_uid.id, v: *self.chapter_uid.v }],
    {
        crate::dup_ebml_copy(&self.chapter_uid)
    }

    /// A deep copy of the `chapter_string_uid` slot.
    #[verifier::loop_isolation(false)]
    fn dup_chapter_string_uid(&self) -> (r: Option<Ebml<String>>)
        ensures
            (match &r { Some(e) => seq![FieldModel::Text { id: 0x5654, idx: e.index, key: e.id, s: (*e.v)@ }], None => Seq::empty() }) == (match &self.chapter_string_uid { Some(e) => seq![FieldModel::Text { id: 0x5654, idx: e.index, key: e.id, s: (*e.v)@ }], None => Seq::empty() }),
    {
        match &self.chapter_string_uid {
            Some(e) => Some(crate::dup_ebml_string(e)),
            None => None,
        }
    }

    /// A deep copy of the `chapter_time_start` slot.
    #[verifier::loop_isolation(false)]
    fn dup_chapter_time_start(&self) -> (r: Ebml<u64>)
        ensures
            seq![FieldModel::UInt { id: 0x91, idx: r.index, key: r.id, v: *r.v }] == seq![FieldModel::UInt { id: 0x91, idx: self.chapter_time_start.index, key: self.chapter_time_start.id, v: *self.chapter_time_start.v }],
    {
        crate::dup_ebml_copy(&self.chapter_time_start)
    }

    /// A deep copy of the `chapter_time_end` slot.
    #[verifier::loop_isolation(false)]
    fn dup_chapter_time_end(&self) -> (r: Option<Ebml<u64>>)
        ensures
            (match &r { Some(e) => seq![FieldModel::UInt { id: 0x92, idx: e.index, key: e.id, v: *e.v }], None => Seq::empty() }) == (match &self.chapter_time_end { Some(e) => seq![FieldModel::UInt { id: 0x92, idx: e.index, key: e.id, v: *e.v }], None => Seq::empty() }),
    {
        match &self.chapter_time_end {
            Some(e) => Some(crate::dup_ebml_copy(e)),
            None => None,
        }
    }

    /// A deep copy of the `chapter_flag_hidden` slot.
    #[verifier::loop_isolation(false)]
    fn dup_chapter_flag_hidden(&self) -> (r: Ebml<u64>)
        ensures
            seq![FieldModel::UInt { id: 0x98, idx: r.index, key: r.id, v: *r.v }] == seq![FieldModel::UInt { id: 0x98, idx: self.chapter_flag_hidden.index, key: self.chapter_flag_hidden.id, v: *self.chapter_flag_hidden.v }],
    {
        crate::dup_ebml_copy(&self.chapter_flag_hidden)
    }

    /// A deep copy of the `chapter_flag_enabled` slot.
    #[verifier::loop_isolation(false)]
    fn dup_chapter_flag_enabled(&self) -> (r: Ebml<u64>)
        ensures
            seq![FieldModel::UInt { id: 0x4598, idx: r.index, key: r.id, v: *r.v }] == seq![FieldModel::UInt { id: 0x4598, idx: self.chapter_flag_enabled.index, key: self.chapter_flag_enabled.id, v: *self.chapter_flag_enabled.v }],
    {
        crate::dup_ebml_copy(&self.chapter_flag_enabled)
    }

    /// A deep copy of the `chapter_segment_uuid` slot.
    #[verifier::loop_isolation(false)]
    fn dup_chapter_segment_uuid(&self) -> (r: Option<Ebml<Vec<u8>>>)
        ensures
            (match &r { Some(e) => seq![FieldModel::Bin { id: 0x6E67, idx: e.index, key: e.id, b: (*e.v)@ }], None => Seq::empty() }) == (match &self.chapter_segment_uuid { Some(e) => seq![FieldModel::Bin { id: 0x6E67, idx: e.index, key: e.id, b: (*e.v)@ }], None => Seq::empty() }),
    {
        match &self.chapter_segment_uuid {
            Some(e) => Some(crate::dup_ebml_bytes(e)),
            None => None,
        }
    }

    /// A deep copy of the `chapter_skip_type` slot.
    #[verifier::loop_isolation(false)]
    fn dup_chapter_skip_type(&self) -> (r: Option<Ebml<u64>>)
        ensures
            (match &r { Some(e) => seq![FieldModel::UInt { id: 0x4588, idx: e.index, key: e.id, v: *e.v }], None => Seq::empty() }) == (match &self.chapter_skip_type { Some(e) => seq![FieldModel::UInt { id: 0x4588, idx: e.index, key: e.id, v: *e.v }], None => Seq::empty() }),
    {
        match &self.chapter_skip_type {
            Some(e) => Some(crate::dup_ebml_copy(e)),
            None => None,
        }
    }

    /// A deep copy of the `chapter_segment_edition_uid` slot.
    #[verifier::loop_isolation(false)]
    fn dup_chapter_segment_edition_uid(&self) -> (r: Option<Ebml<u64>>)
        ensures
            (match &r { Some(e) => seq![FieldModel::UInt { id: 0x6EBC, idx: e.index, key: e.id, v: *e.v }], None => Seq::empty() }) == (match &self.chapter_segment_edition_uid { Some(e) => seq![FieldModel::UInt { id: 0x6EBC, idx: e.index, key: e.id, v: *e.v }], None => Seq::empty() }),
    {
        match &self.chapter_segment_edition_uid {
            Some(e) => Some(crate::dup_ebml_copy(e)),
            None => None,
        }
    }

    /// A deep copy of the `chapter_physical_equiv` slot.
    #[verifier::loop_isolation(false)]
    fn dup_chapter_physical_equiv(&self) -> (r: Option<Ebml<u64>>)
        ensures
            (match &r { Some(e) => seq![FieldModel::UInt { id: 0x63C3, idx: e.index, key: e.id, v: *e.v }], None => Seq::empty() }) == (match &self.chapter_physical_equiv { Some(e) => seq![FieldModel::UInt { id: 0x63C3, idx: e.index, key: e.id, v: *e.v }], None => Seq::empty() }),
    {
        match &self.chapter_physical_equiv {
            Some(e) => Some(crate::dup_ebml_copy(e)),
            None => None,
        }
    }

    /// A deep copy of the `chapter_track` slot.
    #[verifier::loop_isolation(false)]
    fn dup_chapter_track(&self) -> (r: Option<Ebml<ChapterTrack>>)
        ensures
            (match &r { Some(e) => seq![FieldModel::Node { id: 0x8F, idx: e.index, key: e.id, children: (*e.v).model() }], None => Seq::empty() }) == (match &self.chapter_track { Some(e) => seq![FieldModel::Node { id: 0x8F, idx: e.index, key: e.id, children: (*e.v).model() }], None => Seq::empty() }),
    {
        match &self.chapter_track {
            Some(e) => {
                let d = (&*e.v).duplicate();
                proof {
                    reveal(ChapterTrack::model);
                    assert(d.model() == (*e.v).model());
                }
                Some(Ebml { index: e.index, v: Box::new(d), id: e.id })
            },
            None => None,
        }
    }

    /// A deep copy of the `chapter_display` slot.
    #[verifier::loop_isolation(false)]
    fn dup_chapter_display(&self) -> (r: Vec<Ebml<ChapterDisplay>>)
        ensures
            chapteratom_chapter_display_models(r@) == chapteratom_chapter_display_models(self.chapter_display@),
    {
        let mut out: Vec<Ebml<ChapterDisplay>> = Vec::new();
        let mut i: usize = 0;
        while i < self.chapter_display.len()
            invariant
                i <= self.chapter_display@.len(),
                chapteratom_chapter_display_models(out@) == chapteratom_chapter_display_models(self.chapter_display@.take(i as int)),
            decreases self.chapter_display@.len() - i,
        {
            let e = &self.chapter_display[i];
            let d = (&*e.v).duplicate();
            proof {
                reveal(ChapterDisplay::model);
                assert(d.model() == (*e.v).model());
            }
            let ghost prevo = out@;
            out.push(Ebml { index: e.index, v: Box::new(d), id: e.id });
            proof {
                assert(self.chapter_display@.take(i + 1) =~= self.chapter_display@.take(i as int).push(self.chapter_display@[i as int]));
                assert(out@.drop_last() =~= prevo);
                assert(self.chapter_display@.take(i + 1).drop_last() =~= self.chapter_display@.take(i as int));
                assert(FieldModel::Node { id: 0x80, idx: (out@.last()).index, key: (out@.last()).id, children: (*(out@.last()).v).model() } == FieldModel::Node { id: 0x80, idx: (self.chapter_display@[i as int]).index, key: (self.chapter_display@[i as int]).id, children: (*(self.chapter_display@[i as int]).v).model() });
                assert(chapteratom_chapter_display_models(out@) =~= chapteratom_chapter_display_models(prevo).push(FieldModel::Node { id: 0x80, idx: (out@.last()).index, key: (out@.last()).id, children: (*(out@.last()).v).model() }));
                assert(chapteratom_chapter_display_models(self.chapter_display@.take(i + 1)) =~= chapteratom_chapter_display_models(self.chapter_display@.take(i as int)).push(FieldModel::Node { id: 0x80, idx: (self.chapter_display@[i as int]).index, key: (self.chapter_display@[i as int]).id, children: (*(self.chapter_display@[i as int]).v).model() }));
            }
            i += 1;
        }
        proof {
            assert(self.chapter_display@.take(self.chapter_display@.len() as int) =~= self.chapter_display@);
        }
        out
    }

    /// A deep copy of the `chap_process` slot.
    #[verifier::loop_isolation(false)]
    fn dup_chap_process(&self) -> (r: Vec<Ebml<ChapProcess>>)
        ensures
            chapteratom_chap_process_models(r@) == chapteratom_chap_process_models(self.chap_process@),
    {
        let mut out: Vec<Ebml<ChapProcess>> = Vec::new();
        let mut i: usize = 0;
        while i < self.chap_process.len()
            invariant
                i <= self.chap_process@.len(),
                chapteratom_chap_process_models(out@) == chapteratom_chap_process_models(self.chap_process@.take(i as int)),
            decreases self.chap_process@.len() - i,
        {
            let e = &self.chap_process[i];
            let d = (&*e.v).duplicate();
            proof {
                reveal(ChapProcess::model);
                assert(d.model() == (*e.v).model());
            }
            let ghost prevo = out@;
            out.push(Ebml { index: e.index, v: Box::new(d), id: e.id });
            proof {
                assert(self.chap_process@.take(i + 1) =~= self.chap_process@.take(i as int).push(self.chap_process@[i as int]));
                assert(out@.drop_last() =~= prevo);
                assert(self.chap_process@.take(i + 1).drop_last() =~= self.chap_process@.take(i as int));
                assert(FieldModel::Node { id: 0x6944, idx: (out@.last()).index, key: (out@.last()).id, children: (*(out@.last()).v).model() } == FieldModel::Node { id: 0x6944, idx: (self.chap_process@[i as int]).index, key: (self.chap_process@[i as int]).id, children: (*(self.chap_process@[i as int]).v).model() });
                assert(chapteratom_chap_process_models(out@) =~= chapteratom_chap_process_models(prevo).push(FieldModel::Node { id: 0x6944, idx: (out@.last()).index, key: (out@.last()).id, children: (*(out@.last()).v).model() }));
                assert(chapteratom_chap_process_models(self.chap_process@.take(i + 1)) =~= chapteratom_chap_process_models(self.chap_process@.take(i as int)).push(FieldModel::Node { id: 0x6944, idx: (self.chap_process@[i as int]).index, key: (self.chap_process@[i as int]).id, children: (*(self.chap_process@[i as int]).v).model() }));
            }
            i += 1;
        }
        proof {
            assert(self.chap_process@.take(self.chap_process@.len() as int) =~= self.chap_process@);
        }
        out
    }

    /// A deep copy with the same children, positions, and keys.
    #[verifier::rlimit(100)]
    #[verifier::spinoff_prover]
    pub fn duplicate(&self) -> (r: Self)
        ensures
            r.raw_model() == self.raw_model(),
            r.size == self.size,
    {
        let r = ChapterAtom {
            size: self.size,
            chapter_uid: self.dup_chapter_uid(),
            chapter_string_uid: self.dup_chapter_string_uid(),
            chapter_time_start: self.dup_chapter_time_start(),
            chapter_time_end: self.dup_chapter_time_end(),
            chapter_flag_hidden: self.dup_chapter_flag_hidden(),
            chapter_flag_enabled: self.dup_chapter_flag_enabled(),
            chapter_segment_uuid: self.dup_chapter_segment_uuid(),
            chapter_skip_type: self.dup_chapter_skip_type(),
            chapter_segment_edition_uid: self.dup_chapter_segment_edition_uid(),
            chapter_physical_equiv: self.dup_chapter_physical_equiv(),
            chapter_track: self.dup_chapter_track(),
            chapter_display: self.dup_chapter_display(),
            chap_process: self.dup_chap_process(),
        };
        proof {
            reveal(ChapterAtom::raw_model);
            assert(r.raw_model() == self.raw_model());
        }
        r
    }
}

impl ChapterAtom {
    /// Serialise the whole element: body to a scratch buffer first, then
    /// the header with the now-known length, then the body.
    pub fn write_blocking(&self, w: &mut Vec<u8>) -> (r: Result<usize, MatroskaError>)
        ensures
            r is Ok <==> body_ok_rec(self.model()) && cat_bytes(self.model()).len() < 0xFFFFFFFFFFFFFF,
            r is Ok ==> final(w)@ == old(w)@ + node_frame_bytes(0xB6, cat_bytes(self.model()))
                && r->Ok_0 == node_frame_bytes(0xB6, cat_bytes(self.model())).len(),
            r is Err ==> final(w)@ == old(w)@ && r->Err_0 is InvalidVarIntMoreThanVintMax,
    {
        let mut buf: Vec<u8> = Vec::new();
        match self.write_body_blocking(&mut buf) {
            Ok(_) => {},
            Err(e) => {
                return Err(e);
            },
        }
        let start = w.len();
        match crate::io::write_element_id_size(w, 0xB6, buf.len() as u64) {
            Ok(_) => {},
            Err(e) => {
                return Err(e);
            },
        }
        w.append(&mut buf);
        Ok(w.len() - start)
    }

    /// Write this element's header with the given body size.
    pub fn write_header_blocking(&self, w: &mut Vec<u8>, size: u64) -> (r: Result<usize, MatroskaError>)
        ensures
            r is Ok <==> crate::io::size_encodable(size),
            r is Ok ==> final(w)@ == old(w)@ + crate::io::header_bytes(0xB6, size)
                && r->Ok_0 == crate::io::header_bytes(0xB6, size).len(),
            r is Err ==> final(w)@ == old(w)@ && r->Err_0 is InvalidVarIntMoreThanVintMax,
    {
        crate::io::write_element_id_size(w, 0xB6, size)
    }

    /// Write the body: every present child, in emission order.
    #[verifier::loop_isolation(false)]
    #[verifier::rlimit(60)]
    #[verifier::spinoff_prover]
    pub fn write_body_blocking(&self, w: &mut Vec<u8>) -> (r: Result<usize, MatroskaError>)
        ensures
            r is Ok <==> body_ok_rec(self.model()),
            r is Ok ==> final(w)@ == old(w)@ + cat_bytes(self.model())
                && r->Ok_0 == cat_bytes(self.model()).len(),
            r is Err ==> r->Err_0 is InvalidVarIntMoreThanVintMax,
    {
        let fields = self.elements();
        let start = w.len();
        let ghost ms = self.model();
        let mut i: usize = 0;
        while i < fields.len()
            invariant
                i <= fields@.len(),
                models_of::<ChapterAtomFields>(fields@) == ms,
                w@ == old(w)@ + cat_bytes(ms.take(i as int)),
                body_ok_rec(ms.take(i as int)),
            decreases fields@.len() - i,
        {
            proof {
                assert(models_of::<ChapterAtomFields>(fields@)[i as int] == ms[i as int]);
            }
            match fields[i].write_el(w) {
                Ok(_) => {},
                Err(e) => {
                    proof {
                        lemma_body_ok_forall(ms);
                    }
                    return Err(e);
                },
            }
            proof {
                assert(ms.take(i + 1) =~= ms.take(i as int).push(ms[i as int]));
                lemma_cat_snoc(ms.take(i as int), ms[i as int]);
            }
            i += 1;
        }
        proof {
            assert(ms.take(ms.len() as int) =~= ms);
            lemma_body_ok_forall(ms);
        }
        Ok(w.len() - start)
    }
}

/// One present child of a `ChapterAtom`, paired with its value.
#[derive(Debug)]
pub enum ChapterAtomFields {
    ChapterUid(Ebml<u64>),
    ChapterStringUid(Ebml<String>),
    ChapterTimeStart(Ebml<u64>),
    ChapterTimeEnd(Ebml<u64>),
    ChapterFlagHidden(Ebml<u64>),
    ChapterFlagEnabled(Ebml<u64>),
    ChapterSegmentUuid(Ebml<Vec<u8>>),
    ChapterSkipType(Ebml<u64>),
    ChapterSegmentEditionUid(Ebml<u64>),
    ChapterPhysicalEquiv(Ebml<u64>),
    ChapterTrack(Ebml<ChapterTrack>),
    ChapterDisplay(Ebml<ChapterDisplay>),
    ChapProcess(Ebml<ChapProcess>),
}

impl ChapterAtomFields {
    /// The child's element ID and its two ordering slots.
    #[verifier::rlimit(60)]
    #[verifier::spinoff_prover]
    pub fn index(&self) -> (r: (EbmlId, Option<u64>, u64))
        ensures
            r.0.spec_u64() == self.model().eid(),
            r.1 == self.model().idx(),
            r.2 == self.model().key(),
    {
        match self {
            Self::ChapterUid(val) => (EbmlId::ChapterUid, val.index, val.id),
            Self::ChapterStringUid(val) => (EbmlId::ChapterStringUid, val.index, val.id),
            Self::ChapterTimeStart(val) => (EbmlId::ChapterTimeStart, val.index, val.id),
            Self::ChapterTimeEnd(val) => (EbmlId::ChapterTimeEnd, val.index, val.id),
            Self::ChapterFlagHidden(val) => (EbmlId::ChapterFlagHidden, val.index, val.id),
            Self::ChapterFlagEnabled(val) => (EbmlId::ChapterFlagEnabled, val.index, val.id),
            Self::ChapterSegmentUuid(val) => (EbmlId::ChapterSegmentUuid, val.index, val.id),
            Self::ChapterSkipType(val) => (EbmlId::ChapterSkipType, val.index, val.id),
            Self::ChapterSegmentEditionUid(val) => (EbmlId::ChapterSegmentEditionUid, val.index, val.id),
            Self::ChapterPhysicalEquiv(val) => (EbmlId::ChapterPhysicalEquiv, val.index, val.id),
            Self::ChapterTrack(val) => (EbmlId::ChapterTrack, val.index, val.id),
            Self::ChapterDisplay(val) => (EbmlId::ChapterDisplay, val.index, val.id),
            Self::ChapProcess(val) => (EbmlId::ChapProcess, val.index, val.id),
        }
    }

    /// Write this child's frame.
    #[verifier::rlimit(60)]
    #[verifier::spinoff_prover]
    pub fn write_el(&self, w: &mut Vec<u8>) -> (r: Result<usize, MatroskaError>)
        ensures
            r is Ok <==> el_ok(self.model()),
            r is Ok ==> final(w)@ == old(w)@ + el_bytes(self.model())
                && r->Ok_0 == el_bytes(self.model()).len(),
            r is Err ==> final(w)@ == old(w)@ && r->Err_0 is InvalidVarIntMoreThanVintMax,
    {
        match self {
            Self::ChapterUid(val) => crate::io::write_el_uint(w, 0x73C4, &*val.v),
            Self::ChapterStringUid(val) => crate::io::write_el_utf8(w, 0x5654, (*val.v).as_str()),
            Self::ChapterTimeStart(val) => crate::io::write_el_uint(w, 0x91, &*val.v),
            Self::ChapterTimeEnd(val) => crate::io::write_el_uint(w, 0x92, &*val.v),
            Self::ChapterFlagHidden(val) => crate::io::write_el_uint(w, 0x98, &*val.v),
            Self::ChapterFlagEnabled(val) => crate::io::write_el_uint(w, 0x4598, &*val.v),
            Self::ChapterSegmentUuid(val) => crate::io::write_el_bin(w, 0x6E67, (*val.v).as_slice()),
            Self::ChapterSkipType(val) => crate::io::write_el_uint(w, 0x4588, &*val.v),
            Self::ChapterSegmentEditionUid(val) => crate::io::write_el_uint(w, 0x6EBC, &*val.v),
            Self::ChapterPhysicalEquiv(val) => crate::io::write_el_uint(w, 0x63C3, &*val.v),
            Self::ChapterTrack(val) => (*val.v).write_blocking(w),
            Self::ChapterDisplay(val) => (*val.v).write_blocking(w),
            Self::ChapProcess(val) => (*val.v).write_blocking(w),
        }
    }
}

impl EbmlField for ChapterAtomFields {
    open spec fn model(&self) -> FieldModel {
        match self {
            Self::ChapterUid(e) => FieldModel::UInt { id: 0x73C4, idx: e.index, key: e.id, v: *e.v },
            Self::ChapterStringUid(e) => FieldModel::Text { id: 0x5654, idx: e.index, key: e.id, s: (*e.v)@ },
            Self::ChapterTimeStart(e) => FieldModel::UInt { id: 0x91, idx: e.index, key: e.id, v: *e.v },
            Self::ChapterTimeEnd(e) => FieldModel::UInt { id: 0x92, idx: e.index, key: e.id, v: *e.v },
            Self::ChapterFlagHidden(e) => FieldModel::UInt { id: 0x98, idx: e.index, key: e.id, v: *e.v },
            Self::ChapterFlagEnabled(e) => FieldModel::UInt { id: 0x4598, idx: e.index, key: e.id, v: *e.v },
            Self::ChapterSegmentUuid(e) => FieldModel::Bin { id: 0x6E67, idx: e.index, key: e.id, b: (*e.v)@ },
            Self::ChapterSkipType(e) => FieldModel::UInt { id: 0x4588, idx: e.index, key: e.id, v: *e.v },
            Self::ChapterSegmentEditionUid(e) => FieldModel::UInt { id: 0x6EBC, idx: e.index, key: e.id, v: *e.v },
            Self::ChapterPhysicalEquiv(e) => FieldModel::UInt { id: 0x63C3, idx: e.index, key: e.id, v: *e.v },
            Self::ChapterTrack(e) => FieldModel::Node { id: 0x8F, idx: e.index, key: e.id, children: (*e.v).model() },
            Self::ChapterDisplay(e) => FieldModel::Node { id: 0x80, idx: e.index, key: e.id, children: (*e.v).model() },
            Self::ChapProcess(e) => FieldModel::Node { id: 0x6944, idx: e.index, key: e.id, children: (*e.v).model() },
        }
    }

    fn sort_key(&self) -> (r: (Option<u64>, u64)) {
        match self {
            Self::ChapterUid(e) => (e.index, e.id),
            Self::ChapterStringUid(e) => (e.index, e.id),
            Self::ChapterTimeStart(e) => (e.index, e.id),
            Self::ChapterTimeEnd(e) => (e.index, e.id),
            Self::ChapterFlagHidden(e) => (e.index, e.id),
            Self::ChapterFlagEnabled(e) => (e.index, e.id),
            Self::ChapterSegmentUuid(e) => (e.index, e.id),
            Self::ChapterSkipType(e) => (e.index, e.id),
            Self::ChapterSegmentEditionUid(e) => (e.index, e.id),
            Self::ChapterPhysicalEquiv(e) => (e.index, e.id),
            Self::ChapterTrack(e) => (e.index, e.id),
            Self::ChapterDisplay(e) => (e.index, e.id),
            Self::ChapProcess(e) => (e.index, e.id),
        }
    }
}

/// The `ChapterTrack` structural element.
#[derive(Debug)]
pub struct ChapterTrack {
    pub size: u64,
    pub chapter_track_uid: Vec<Ebml<u64>>,
}

/// The models of the `chapter_track_uid` children of a `ChapterTrack`.
pub open spec fn chaptertrack_chapter_track_uid_models(s: Seq<Ebml<u64>>) -> Seq<FieldModel> {
    s.map_values(|e: Ebml<u64>| FieldModel::UInt { id: 0x89, idx: e.index, key: e.id, v: *e.v })
}

impl ChapterTrack {
    /// The models of the children, in declaration order.
    #[verifier::opaque]
    pub open spec fn raw_model(self) -> Seq<FieldModel>
    {
        chaptertrack_chapter_track_uid_models(self.chapter_track_uid@)
    }

    /// The children in emission order.
    #[verifier::opaque]
    pub open spec fn model(self) -> Seq<FieldModel>
    {
        sort_fields_spec(self.raw_model())
    }

    /// Append the `chapter_track_uid` child values to a field run.
    #[verifier::loop_isolation(false)]
    fn push_chapter_track_uid(&self, v: &mut Vec<ChapterTrackFields>)
        ensures
            models_of::<ChapterTrackFields>(final(v)@) == models_of::<ChapterTrackFields>(old(v)@) + chaptertrack_chapter_track_uid_models(self.chapter_track_uid@),
    {
        let ghost base = models_of::<ChapterTrackFields>(v@);
        let mut i: usize = 0;
        while i < self.chapter_track_uid.len()
            invariant
                i <= self.chapter_track_uid@.len(),
                models_of::<ChapterTrackFields>(v@) == base + chaptertrack_chapter_track_uid_models(self.chapter_track_uid@.take(i as int)),
            decreases self.chapter_track_uid@.len() - i,
        {
            let e = &self.chapter_track_uid[i];
            let ghost prevv = v@;
            v.push(ChapterTrackFields::ChapterTrackUid(crate::dup_ebml_copy(e)));
            proof {
                assert(self.chapter_track_uid@.take(i + 1) =~= self.chapter_track_uid@.take(i as int).push(self.chapter_track_uid@[i as int]));
                assert(models_of::<ChapterTrackFields>(v@) =~= models_of::<ChapterTrackFields>(prevv).push(v@.last().model()));
                assert(chaptertrack_chapter_track_uid_models(self.chapter_track_uid@.take(i + 1)) =~= chaptertrack_chapter_track_uid_models(self.chapter_track_uid@.take(i as int)).push(v@.last().model()));
                assert(base + chaptertrack_chapter_track_uid_models(self.chapter_track_uid@.take(i + 1)) =~= (base + chaptertrack_chapter_track_uid_models(self.chapter_track_uid@.take(i as int))).push(v@.last().model()));
            }
            i += 1;
        }
        proof {
            assert(self.chapter_track_uid@.take(self.chapter_track_uid@.len() as int) =~= self.chapter_track_uid@);
        }
    }

    /// The present children, each paired with its ID, in emission order.
    #[verifier::rlimit(100)]
    #[verifier::spinoff_prover]
    pub fn elements(&self) -> (r: Vec<ChapterTrackFields>)
        ensures
            models_of::<ChapterTrackFields>(r@) == self.model(),
    {
        let mut v: Vec<ChapterTrackFields> = Vec::new();
        proof {
            assert(models_of::<ChapterTrackFields>(v@) =~= Seq::<FieldModel>::empty());
        }
        self.push_chapter_track_uid(&mut v);
        proof {
            reveal(ChapterTrack::raw_model);
            reveal(ChapterTrack::model);
            assert(Seq::<FieldModel>::empty() + chaptertrack_chapter_track_uid_models(self.chapter_track_uid@) =~= chaptertrack_chapter_track_uid_models(self.chapter_track_uid@));
            assert(models_of::<ChapterTrackFields>(v@) == self.raw_model());
        }
        sort_fields(v)
    }

    /// A deep copy of the `chapter_track_uid` slot.
    #[verifier::loop_isolation(false)]
    fn dup_chapter_track_uid(&self) -> (r: Vec<Ebml<u64>>)
        ensures
            chaptertrack_chapter_track_uid_models(r@) == chaptertrack_chapter_track_uid_models(self.chapter_track_uid@),
    {
        let mut out: Vec<Ebml<u64>> = Vec::new();
        let mut i: usize = 0;
        while i < self.chapter_track_uid.len()
            invariant
                i <= self.chapter_track_uid@.len(),
                chaptertrack_chapter_track_uid_models(out@) == chaptertrack_chapter_track_uid_models(self.chapter_track_uid@.take(i as int)),
            decreases self.chapter_track_uid@.len() - i,
        {
            let e = &self.chapter_track_uid[i];
            let ghost prevo = out@;
            out.push(crate::dup_ebml_copy(e));
            proof {
                assert(self.chapter_track_uid@.take(i + 1) =~= self.chapter_track_uid@.take(i as int).push(self.chapter_track_uid@[i as int]));
                assert(out@.drop_last() =~= prevo);
                assert(self.chapter_track_uid@.take(i + 1).drop_last() =~= self.chapter_track_uid@.take(i as int));
                assert(FieldModel::UInt { id: 0x89, idx: (out@.last()).index, key: (out@.last()).id, v: *(out@.last()).v } == FieldModel::UInt { id: 0x89, idx: (self.chapter_track_uid@[i as int]).index, key: (self.chapter_track_uid@[i as int]).id, v: *(self.chapter_track_uid@[i as int]).v });
                assert(chaptertrack_chapter_track_uid_models(out@) =~= chaptertrack_chapter_track_uid_models(prevo).push(FieldModel::UInt { id: 0x89, idx: (out@.last()).index, key: (out@.last()).id, v: *(out@.last()).v }));
                assert(chaptertrack_chapter_track_uid_models(self.chapter_track_uid@.take(i + 1)) =~= chaptertrack_chapter_track_uid_models(self.chapter_track_uid@.take(i as int)).push(FieldModel::UInt { id: 0x89, idx: (self.chapter_track_uid@[i as int]).index, key: (self.chapter_track_uid@[i as int]).id, v: *(self.chapter_track_uid@[i as int]).v }));
            }
            i += 1;
        }
        proof {
            assert(self.chapter_track_uid@.take(self.chapter_track_uid@.len() as int) =~= self.chapter_track_uid@);
        }
        out
    }

    /// A deep copy with the same children, positions, and keys.
    #[verifier::rlimit(100)]
    #[verifier::spinoff_prover]
    pub fn duplicate(&self) -> (r: Self)
        ensures
            r.raw_model() == self.raw_model(),
            r.size == self.size,
    {
        let r = ChapterTrack {
            size: self.size,
            chapter_track_uid: self.dup_chapter_track_uid(),
        };
        proof {
            reveal(ChapterTrack::raw_model);
            assert(r.raw_model() == self.raw_model());
        }
        r
    }
}

impl ChapterTrack {
    /// Serialise the whole element: body to a scratch buffer first, then
    /// the header with the now-known length, then the body.
    pub fn write_blocking(&self, w: &mut Vec<u8>) -> (r: Result<usize, MatroskaError>)
        ensures
            r is Ok <==> body_ok_rec(self.model()) && cat_bytes(self.model()).len() < 0xFFFFFFFFFFFFFF,
            r is Ok ==> final(w)@ == old(w)@ + node_frame_bytes(0x8F, cat_bytes(self.model()))
                && r->Ok_0 == node_frame_bytes(0x8F, cat_bytes(self.model())).len(),
            r is Err ==> final(w)@ == old(w)@ && r->Err_0 is InvalidVarIntMoreThanVintMax,
    {
        let mut buf: Vec<u8> = Vec::new();
        match self.write_body_blocking(&mut buf) {
            Ok(_) => {},
            Err(e) => {
                return Err(e);
            },
        }
        let start = w.len();
        match crate::io::write_element_id_size(w, 0x8F, buf.len() as u64) {
            Ok(_) => {},
            Err(e) => {
                return Err(e);
            },
        }
        w.append(&mut buf);
        Ok(w.len() - start)
    }

    /// Write this element's header with the given body size.
    pub fn write_header_blocking(&self, w: &mut Vec<u8>, size: u64) -> (r: Result<usize, MatroskaError>)
        ensures
            r is Ok <==> crate::io::size_encodable(size),
            r is Ok ==> final(w)@ == old(w)@ + crate::io::header_bytes(0x8F, size)
                && r->Ok_0 == crate::io::header_bytes(0x8F, size).len(),
            r is Err ==> final(w)@ == old(w)@ && r->Err_0 is InvalidVarIntMoreThanVintMax,
    {
        crate::io::write_element_id_size(w, 0x8F, size)
    }

    /// Write the body: every present child, in emission order.
    #[verifier::loop_isolation(false)]
    #[verifier::rlimit(60)]
    #[verifier::spinoff_prover]
    pub fn write_body_blocking(&self, w: &mut Vec<u8>) -> (r: Result<usize, MatroskaError>)
        ensures
            r is Ok <==> body_ok_rec(self.model()),
            r is Ok ==> final(w)@ == old(w)@ + cat_bytes(self.model())
                && r->Ok_0 == cat_bytes(self.model()).len(),
            r is Err ==> r->Err_0 is InvalidVarIntMoreThanVintMax,
    {
        let fields = self.elements();
        let start = w.len();
        let ghost ms = self.model();
        let mut i: usize = 0;
        while i < fields.len()
            invariant
                i <= fields@.len(),
                models_of::<ChapterTrackFields>(fields@) == ms,
                w@ == old(w)@ + cat_bytes(ms.take(i as int)),
                body_ok_rec(ms.take(i as int)),
            decreases fields@.len() - i,
        {
            proof {
                assert(models_of::<ChapterTrackFields>(fields@)[i as int] == ms[i as int]);
            }
            match fields[i].write_el(w) {
                Ok(_) => {},
                Err(e) => {
                    proof {
                        lemma_body_ok_forall(ms);
                    }
                    return Err(e);
                },
            }
            proof {
                assert(ms.take(i + 1) =~= ms.take(i as int).push(ms[i as int]));
                lemma_cat_snoc(ms.take(i as int), ms[i as int]);
            }
            i += 1;
        }
        proof {
            assert(ms.take(ms.len() as int) =~= ms);
            lemma_body_ok_forall(ms);
        }
        Ok(w.len() - start)
    }
}

/// One present child of a `ChapterTrack`, paired with its value.
#[derive(Debug)]
pub enum ChapterTrackFields {
    ChapterTrackUid(Ebml<u64>),
}

impl ChapterTrackFields {
    /// The child's element ID and its two ordering slots.
    #[verifier::rlimit(60)]
    #[verifier::spinoff_prover]
    pub fn index(&self) -> (r: (EbmlId, Option<u64>, u64))
        ensures
            r.0.spec_u64() == self.model().eid(),
            r.1 == self.model().idx(),
            r.2 == self.model().key(),
    {
        match self {
            Self::ChapterTrackUid(val) => (EbmlId::ChapterTrackUid, val.index, val.id),
        }
    }

    /// Write this child's frame.
    #[verifier::rlimit(60)]
    #[verifier::spinoff_prover]
    pub fn write_el(&self, w: &mut Vec<u8>) -> (r: Result<usize, MatroskaError>)
        ensures
            r is Ok <==> el_ok(self.model()),
            r is Ok ==> final(w)@ == old(w)@ + el_bytes(self.model())
                && r->Ok_0 == el_bytes(self.model()).len(),
            r is Err ==> final(w)@ == old(w)@ && r->Err_0 is InvalidVarIntMoreThanVintMax,
    {
        match self {
            Self::ChapterTrackUid(val) => crate::io::write_el_uint(w, 0x89, &*val.v),
        }
    }
}

impl EbmlField for ChapterTrackFields {
    open spec fn model(&self) -> FieldModel {
        match self {
            Self::ChapterTrackUid(e) => FieldModel::UInt { id: 0x89, idx: e.index, key: e.id, v: *e.v },
        }
    }

    fn sort_key(&self) -> (r: (Option<u64>, u64)) {
        match self {
            Self::ChapterTrackUid(e) => (e.index, e.id),
        }
    }
}

/// The `ChapterDisplay` structural element.
#[derive(Debug)]
pub struct ChapterDisplay {
    pub size: u64,
    pub chap_string: Ebml<String>,
    pub chap_language: Vec<Ebml<String>>,
    pub chap_language_bcp_47: Vec<Ebml<String>>,
    pub chap_country: Vec<Ebml<String>>,
}

/// The models of the `chap_language` children of a `ChapterDisplay`.
pub open spec fn chapterdisplay_chap_language_models(s: Seq<Ebml<String>>) -> Seq<FieldModel> {
    s.map_values(|e: Ebml<String>| FieldModel::Text { id: 0x437C, idx: e.index, key: e.id, s: (*e.v)@ })
}

/// The models of the `chap_language_bcp_47` children of a `ChapterDisplay`.
pub open spec fn chapterdisplay_chap_language_bcp_47_models(s: Seq<Ebml<String>>) -> Seq<FieldModel> {
    s.map_values(|e: Ebml<String>| FieldModel::Text { id: 0x437D, idx: e.index, key: e.id, s: (*e.v)@ })
}

/// The models of the `chap_country` children of a `ChapterDisplay`.
pub open spec fn chapterdisplay_chap_country_models(s: Seq<Ebml<String>>) -> Seq<FieldModel> {
    s.map_values(|e: Ebml<String>| FieldModel::Text { id: 0x437E, idx: e.index, key: e.id, s: (*e.v)@ })
}

impl ChapterDisplay {
    /// The models of the children, in declaration order.
    #[verifier::opaque]
    pub open spec fn raw_model(self) -> Seq<FieldModel>
    {
        seq![FieldModel::Text { id: 0x85, idx: self.chap_string.index, key: self.chap_string.id, s: (*self.chap_string.v)@ }]
            + chapterdisplay_chap_language_models(self.chap_language@)
            + chapterdisplay_chap_language_bcp_47_models(self.chap_language_bcp_47@)
            + chapterdisplay_chap_country_models(self.chap_country@)
    }

    /// The children in emission order.
    #[verifier::opaque]
    pub open spec fn model(self) -> Seq<FieldModel>
    {
        sort_fields_spec(self.raw_model())
    }

    /// Append the `chap_string` child values to a field run.
    #[verifier::loop_isolation(false)]
    fn push_chap_string(&self, v: &mut Vec<ChapterDisplayFields>)
        ensures
            models_of::<ChapterDisplayFields>(final(v)@) == models_of::<ChapterDisplayFields>(old(v)@) + seq![FieldModel::Text { id: 0x85, idx: self.chap_string.index, key: self.chap_string.id, s: (*self.chap_string.v)@ }],
    {
        let ghost prevv = v@;
        v.push(ChapterDisplayFields::ChapString(crate::dup_ebml_string(&self.chap_string)));
        proof {
            assert(models_of::<ChapterDisplayFields>(v@) =~= models_of::<ChapterDisplayFields>(prevv).push(v@.last().model()));
            assert(models_of::<ChapterDisplayFields>(prevv).push(v@.last().model()) =~= models_of::<ChapterDisplayFields>(prevv) + seq![FieldModel::Text { id: 0x85, idx: self.chap_string.index, key: self.chap_string.id, s: (*self.chap_string.v)@ }]);
        }
    }

    /// Append the `chap_language` child values to a field run.
    #[verifier::loop_isolation(false)]
    fn push_chap_language(&self, v: &mut Vec<ChapterDisplayFields>)
        ensures
            models_of::<ChapterDisplayFields>(final(v)@) == models_of::<ChapterDisplayFields>(old(v)@) + chapterdisplay_chap_language_models(self.chap_language@),
    {
        let ghost base = models_of::<ChapterDisplayFields>(v@);
        let mut i: usize = 0;
        while i < self.chap_language.len()
            invariant
                i <= self.chap_language@.len(),
                models_of::<ChapterDisplayFields>(v@) == base + chapterdisplay_chap_language_models(self.chap_language@.take(i as int)),
            decreases self.chap_language@.len() - i,
        {
            let e = &self.chap_language[i];
            let ghost prevv = v@;
            v.push(ChapterDisplayFields::ChapLanguage(crate::dup_ebml_string(e)));
            proof {
                assert(self.chap_language@.take(i + 1) =~= self.chap_language@.take(i as int).push(self.chap_language@[i as int]));
                assert(models_of::<ChapterDisplayFields>(v@) =~= models_of::<ChapterDisplayFields>(prevv).push(v@.last().model()));
                assert(chapterdisplay_chap_language_models(self.chap_language@.take(i + 1)) =~= chapterdisplay_chap_language_models(self.chap_language@.take(i as int)).push(v@.last().model()));
                assert(base + chapterdisplay_chap_language_models(self.chap_language@.take(i + 1)) =~= (base + chapterdisplay_chap_language_models(self.chap_language@.take(i as int))).push(v@.last().model()));
            }
            i += 1;
        }
        proof {
            assert(self.chap_language@.take(self.chap_language@.len() as int) =~= self.chap_language@);
        }
    }

    /// Append the `chap_language_bcp_47` child values to a field run.
    #[verifier::loop_isolation(false)]
    fn push_chap_language_bcp_47(&self, v: &mut Vec<ChapterDisplayFields>)
        ensures
            models_of::<ChapterDisplayFields>(final(v)@) == models_of::<ChapterDisplayFields>(old(v)@) + chapterdisplay_chap_language_bcp_47_models(self.chap_language_bcp_47@),
    {
        let ghost base = models_of::<ChapterDisplayFields>(v@);
        let mut i: usize = 0;
        while i < self.chap_language_bcp_47.len()
            invariant
                i <= self.chap_language_bcp_47@.len(),
                models_of::<ChapterDisplayFields>(v@) == base + chapterdisplay_chap_language_bcp_47_models(self.chap_language_bcp_47@.take(i as int)),
            decreases self.chap_language_bcp_47@.len() - i,
        {
            let e = &self.chap_language_bcp_47[i];
            let ghost prevv = v@;
            v.push(ChapterDisplayFields::ChapLanguageBcp47(crate::dup_ebml_string(e)));
            proof {
                assert(self.chap_language_bcp_47@.take(i + 1) =~= self.chap_language_bcp_47@.take(i as int).push(self.chap_language_bcp_47@[i as int]));
                assert(models_of::<ChapterDisplayFields>(v@) =~= models_of::<ChapterDisplayFields>(prevv).push(v@.last().model()));
                assert(chapterdisplay_chap_language_bcp_47_models(self.chap_language_bcp_47@.take(i + 1)) =~= chapterdisplay_chap_language_bcp_47_models(self.chap_language_bcp_47@.take(i as int)).push(v@.last().model()));
                assert(base + chapterdisplay_chap_language_bcp_47_models(self.chap_language_bcp_47@.take(i + 1)) =~= (base + chapterdisplay_chap_language_bcp_47_models(self.chap_language_bcp_47@.take(i as int))).push(v@.last().model()));
            }
            i += 1;
        }
        proof {
            assert(self.chap_language_bcp_47@.take(self.chap_language_bcp_47@.len() as int) =~= self.chap_language_bcp_47@);
        }
    }

    /// Append the `chap_country` child values to a field run.
    #[verifier::loop_isolation(false)]
    fn push_chap_country(&self, v: &mut Vec<ChapterDisplayFields>)
        ensures
            models_of::<ChapterDisplayFields>(final(v)@) == models_of::<ChapterDisplayFields>(old(v)@) + chapterdisplay_chap_country_models(self.chap_country@),
    {
        let ghost base = models_of::<ChapterDisplayFields>(v@);
        let mut i: usize = 0;
        while i < self.chap_country.len()
            invariant
                i <= self.chap_country@.len(),
                models_of::<ChapterDisplayFields>(v@) == base + chapterdisplay_chap_country_models(self.chap_country@.take(i as int)),
            decreases self.chap_country@.len() - i,
        {
            let e = &self.chap_country[i];
            let ghost prevv = v@;
            v.push(ChapterDisplayFields::ChapCountry(crate::dup_ebml_string(e)));
            proof {
                assert(self.chap_country@.take(i + 1) =~= self.chap_country@.take(i as int).push(self.chap_country@[i as int]));
                assert(models_of::<ChapterDisplayFields>(v@) =~= models_of::<ChapterDisplayFields>(prevv).push(v@.last().model()));
                assert(chapterdisplay_chap_country_models(self.chap_country@.take(i + 1)) =~= chapterdisplay_chap_country_models(self.chap_country@.take(i as int)).push(v@.last().model()));
                assert(base + chapterdisplay_chap_country_models(self.chap_country@.take(i + 1)) =~= (base + chapterdisplay_chap_country_models(self.chap_country@.take(i as int))).push(v@.last().model()));
            }
            i += 1;
        }
        proof {
            assert(self.chap_country@.take(self.chap_country@.len() as int) =~= self.chap_country@);
        }
    }

    /// The present children, each paired with its ID, in emission order.
    #[verifier::rlimit(100)]
    #[verifier::spinoff_prover]
    pub fn elements(&self) -> (r: Vec<ChapterDisplayFields>)
        ensures
            models_of::<ChapterDisplayFields>(r@) == self.model(),
    {
        let mut v: Vec<ChapterDisplayFields> = Vec::new();
        proof {
            assert(models_of::<ChapterDisplayFields>(v@) =~= Seq::<FieldModel>::empty());
        }
        self.push_chap_string(&mut v);
        self.push_chap_language(&mut v);
        self.push_chap_language_bcp_47(&mut v);
        self.push_chap_country(&mut v);
        proof {
            reveal(ChapterDisplay::raw_model);
            reveal(ChapterDisplay::model);
            assert(Seq::<FieldModel>::empty() + seq![FieldModel::Text { id: 0x85, idx: self.chap_string.index, key: self.chap_string.id, s: (*self.chap_string.v)@ }] =~= seq![FieldModel::Text { id: 0x85, idx: self.chap_string.index, key: self.chap_string.id, s: (*self.chap_string.v)@ }]);
            assert(models_of::<ChapterDisplayFields>(v@) == self.raw_model());
        }
        sort_fields(v)
    }

    /// A deep copy of the `chap_string` slot.
    #[verifier::loop_isolation(false)]
    fn dup_chap_string(&self) -> (r: Ebml<String>)
        ensures
            seq![FieldModel::Text { id: 0x85, idx: r.index, key: r.id, s: (*r.v)@ }] == seq![FieldModel::Text { id: 0x85, idx: self.chap_string.index, key: self.chap_string.id, s: (*self.chap_string.v)@ }],
    {
        crate::dup_ebml_string(&self.chap_string)
    }

    /// A deep copy of the `chap_language` slot.
    #[verifier::loop_isolation(false)]
    fn dup_chap_language(&self) -> (r: Vec<Ebml<String>>)
        ensures
            chapterdisplay_chap_language_models(r@) == chapterdisplay_chap_language_models(self.chap_language@),
    {
        let mut out: Vec<Ebml<String>> = Vec::new();
        let mut i: usize = 0;
        while i < self.chap_language.len()
            invariant
                i <= self.chap_language@.len(),
                chapterdisplay_chap_language_models(out@) == chapterdisplay_chap_language_models(self.chap_language@.take(i as int)),
            decreases self.chap_language@.len() - i,
        {
            let e = &self.chap_language[i];
            let ghost prevo = out@;
            out.push(crate::dup_ebml_string(e));
            proof {
                assert(self.chap_language@.take(i + 1) =~= self.chap_language@.take(i as int).push(self.chap_language@[i as int]));
                assert(out@.drop_last() =~= prevo);
                assert(self.chap_language@.take(i + 1).drop_last() =~= self.chap_language@.take(i as int));
                assert(FieldModel::Text { id: 0x437C, idx: (out@.last()).index, key: (out@.last()).id, s: (*(out@.last()).v)@ } == FieldModel::Text { id: 0x437C, idx: (self.chap_language@[i as int]).index, key: (self.chap_language@[i as int]).id, s: (*(self.chap_language@[i as int]).v)@ });
                assert(chapterdisplay_chap_language_models(out@) =~= chapterdisplay_chap_language_models(prevo).push(FieldModel::Text { id: 0x437C, idx: (out@.last()).index, key: (out@.last()).id, s: (*(out@.last()).v)@ }));
                assert(chapterdisplay_chap_language_models(self.chap_language@.take(i + 1)) =~= chapterdisplay_chap_language_models(self.chap_language@.take(i as int)).push(FieldModel::Text { id: 0x437C, idx: (self.chap_language@[i as int]).index, key: (self.chap_language@[i as int]).id, s: (*(self.chap_language@[i as int]).v)@ }));
            }
            i += 1;
        }
        proof {
            assert(self.chap_language@.take(self.chap_language@.len() as int) =~= self.chap_language@);
        }
        out
    }

    /// A deep copy of the `chap_language_bcp_47` slot.
    #[verifier::loop_isolation(false)]
    fn dup_chap_language_bcp_47(&self) -> (r: Vec<Ebml<String>>)
        ensures
            chapterdisplay_chap_language_bcp_47_models(r@) == chapterdisplay_chap_language_bcp_47_models(self.chap_language_bcp_47@),
    {
        let mut out: Vec<Ebml<String>> = Vec::new();
        let mut i: usize = 0;
        while i < self.chap_language_bcp_47.len()
            invariant
                i <= self.chap_language_bcp_47@.len(),
                chapterdisplay_chap_language_bcp_47_models(out@) == chapterdisplay_chap_language_bcp_47_models(self.chap_language_bcp_47@.take(i as int)),
            decreases self.chap_language_bcp_47@.len() - i,
        {
            let e = &self.chap_language_bcp_47[i];
            let ghost prevo = out@;
            out.push(crate::dup_ebml_string(e));
            proof {
                assert(self.chap_language_bcp_47@.take(i + 1) =~= self.chap_language_bcp_47@.take(i as int).push(self.chap_language_bcp_47@[i as int]));
                assert(out@.drop_last() =~= prevo);
                assert(self.chap_language_bcp_47@.take(i + 1).drop_last() =~= self.chap_language_bcp_47@.take(i as int));
                assert(FieldModel::Text { id: 0x437D, idx: (out@.last()).index, key: (out@.last()).id, s: (*(out@.last()).v)@ } == FieldModel::Text { id: 0x437D, idx: (self.chap_language_bcp_47@[i as int]).index, key: (self.chap_language_bcp_47@[i as int]).id, s: (*(self.chap_language_bcp_47@[i as int]).v)@ });
                assert(chapterdisplay_chap_language_bcp_47_models(out@) =~= chapterdisplay_chap_language_bcp_47_models(prevo).push(FieldModel::Text { id: 0x437D, idx: (out@.last()).index, key: (out@.last()).id, s: (*(out@.last()).v)@ }));
                assert(chapterdisplay_chap_language_bcp_47_models(self.chap_language_bcp_47@.take(i + 1)) =~= chapterdisplay_chap_language_bcp_47_models(self.chap_language_bcp_47@.take(i as int)).push(FieldModel::Text { id: 0x437D, idx: (self.chap_language_bcp_47@[i as int]).index, key: (self.chap_language_bcp_47@[i as int]).id, s: (*(self.chap_language_bcp_47@[i as int]).v)@ }));
            }
            i += 1;
        }
        proof {
            assert(self.chap_language_bcp_47@.take(self.chap_language_bcp_47@.len() as int) =~= self.chap_language_bcp_47@);
        }
        out
    }

    /// A deep copy of the `chap_country` slot.
    #[verifier::loop_isolation(false)]
    fn dup_chap_country(&self) -> (r: Vec<Ebml<String>>)
        ensures
            chapterdisplay_chap_country_models(r@) == chapterdisplay_chap_country_models(self.chap_country@),
    {
        let mut out: Vec<Ebml<String>> = Vec::new();
        let mut i: usize = 0;
        while i < self.chap_country.len()
            invariant
                i <= self.chap_country@.len(),
                chapterdisplay_chap_country_models(out@) == chapterdisplay_chap_country_models(self.chap_country@.take(i as int)),
            decreases self.chap_country@.len() - i,
        {
            let e = &self.chap_country[i];
            let ghost prevo = out@;
            out.push(crate::dup_ebml_string(e));
            proof {
                assert(self.chap_country@.take(i + 1) =~= self.chap_country@.take(i as int).push(self.chap_country@[i as int]));
                assert(out@.drop_last() =~= prevo);
                assert(self.chap_country@.take(i + 1).drop_last() =~= self.chap_country@.take(i as int));
                assert(FieldModel::Text { id: 0x437E, idx: (out@.last()).index, key: (out@.last()).id, s: (*(out@.last()).v)@ } == FieldModel::Text { id: 0x437E, idx: (self.chap_country@[i as int]).index, key: (self.chap_country@[i as int]).id, s: (*(self.chap_country@[i as int]).v)@ });
                assert(chapterdisplay_chap_country_models(out@) =~= chapterdisplay_chap_country_models(prevo).push(FieldModel::Text { id: 0x437E, idx: (out@.last()).index, key: (out@.last()).id, s: (*(out@.last()).v)@ }));
                assert(chapterdisplay_chap_country_models(self.chap_country@.take(i + 1)) =~= chapterdisplay_chap_country_models(self.chap_country@.take(i as int)).push(FieldModel::Text { id: 0x437E, idx: (self.chap_country@[i as int]).index, key: (self.chap_country@[i as int]).id, s: (*(self.chap_country@[i as int]).v)@ }));
            }
            i += 1;
        }
        proof {
            assert(self.chap_country@.take(self.chap_country@.len() as int) =~= self.chap_country@);
        }
        out
    }

    /// A deep copy with the same children, positions, and keys.
    #[verifier::rlimit(100)]
    #[verifier::spinoff_prover]
    pub fn duplicate(&self) -> (r: Self)
        ensures
            r.raw_model() == self.raw_model(),
            r.size == self.size,
    {
        let r = ChapterDisplay {
            size: self.size,
            chap_string: self.dup_chap_string(),
            chap_language: self.dup_chap_language(),
            chap_language_bcp_47: self.dup_chap_language_bcp_47(),
            chap_country: self.dup_chap_country(),
        };
        proof {
            reveal(ChapterDisplay::raw_model);
            assert(r.raw_model() == self.raw_model());
        }
        r
    }
}

impl ChapterDisplay {
    /// Serialise the whole element: body to a scratch buffer first, then
    /// the header with the now-known length, then the body.
    pub fn write_blocking(&self, w: &mut Vec<u8>) -> (r: Result<usize, MatroskaError>)
        ensures
            r is Ok <==> body_ok_rec(self.model()) && cat_bytes(self.model()).len() < 0xFFFFFFFFFFFFFF,
            r is Ok ==> final(w)@ == old(w)@ + node_frame_bytes(0x80, cat_bytes(self.model()))
                && r->Ok_0 == node_frame_bytes(0x80, cat_bytes(self.model())).len(),
            r is Err ==> final(w)@ == old(w)@ && r->Err_0 is InvalidVarIntMoreThanVintMax,
    {
        let mut buf: Vec<u8> = Vec::new();
        match self.write_body_blocking(&mut buf) {
            Ok(_) => {},
            Err(e) => {
                return Err(e);
            },
        }
        let start = w.len();
        match crate::io::write_element_id_size(w, 0x80, buf.len() as u64) {
            Ok(_) => {},
            Err(e) => {
                return Err(e);
            },
        }
        w.append(&mut buf);
        Ok(w.len() - start)
    }

    /// Write this element's header with the given body size.
    pub fn write_header_blocking(&self, w: &mut Vec<u8>, size: u64) -> (r: Result<usize, MatroskaError>)
        ensures
            r is Ok <==> crate::io::size_encodable(size),
            r is Ok ==> final(w)@ == old(w)@ + crate::io::header_bytes(0x80, size)
                && r->Ok_0 == crate::io::header_bytes(0x80, size).len(),
            r is Err ==> final(w)@ == old(w)@ && r->Err_0 is InvalidVarIntMoreThanVintMax,
    {
        crate::io::write_element_id_size(w, 0x80, size)
    }

    /// Write the body: every present child, in emission order.
    #[verifier::loop_isolation(false)]
    #[verifier::rlimit(60)]
    #[verifier::spinoff_prover]
    pub fn write_body_blocking(&self, w: &mut Vec<u8>) -> (r: Result<usize, MatroskaError>)
        ensures
            r is Ok <==> body_ok_rec(self.model()),
            r is Ok ==> final(w)@ == old(w)@ + cat_bytes(self.model())
                && r->Ok_0 == cat_bytes(self.model()).len(),
            r is Err ==> r->Err_0 is InvalidVarIntMoreThanVintMax,
    {
        let fields = self.elements();
        let start = w.len();
        let ghost ms = self.model();
        let mut i: usize = 0;
        while i < fields.len()
            invariant
                i <= fields@.len(),
                models_of::<ChapterDisplayFields>(fields@) == ms,
                w@ == old(w)@ + cat_bytes(ms.take(i as int)),
                body_ok_rec(ms.take(i as int)),
            decreases fields@.len() - i,
        {
            proof {
                assert(models_of::<ChapterDisplayFields>(fields@)[i as int] == ms[i as int]);
            }
            match fields[i].write_el(w) {
                Ok(_) => {},
                Err(e) => {
                    proof {
                        lemma_body_ok_forall(ms);
                    }
                    return Err(e);
                },
            }
            proof {
                assert(ms.take(i + 1) =~= ms.take(i as int).push(ms[i as int]));
                lemma_cat_snoc(ms.take(i as int), ms[i as int]);
            }
            i += 1;
        }
        proof {
            assert(ms.take(ms.len() as int) =~= ms);
            lemma_body_ok_forall(ms);
        }
        Ok(w.len() - start)
    }
}

/// One present child of a `ChapterDisplay`, paired with its value.
#[derive(Debug)]
pub enum ChapterDisplayFields {
    ChapString(Ebml<String>),
    ChapLanguage(Ebml<String>),
    ChapLanguageBcp47(Ebml<String>),
    ChapCountry(Ebml<String>),
}

impl ChapterDisplayFields {
    /// The child's element ID and its two ordering slots.
    #[verifier::rlimit(60)]
    #[verifier::spinoff_prover]
    pub fn index(&self) -> (r: (EbmlId, Option<u64>, u64))
        ensures
            r.0.spec_u64() == self.model().eid(),
            r.1 == self.model().idx(),
            r.2 == self.model().key(),
    {
        match self {
            Self::ChapString(val) => (EbmlId::ChapString, val.index, val.id),
            Self::ChapLanguage(val) => (EbmlId::ChapLanguage, val.index, val.id),
            Self::ChapLanguageBcp47(val) => (EbmlId::ChapLanguageBcp47, val.index, val.id),
            Self::ChapCountry(val) => (EbmlId::ChapCountry, val.index, val.id),
        }
    }

    /// Write this child's frame.
    #[verifier::rlimit(60)]
    #[verifier::spinoff_prover]
    pub fn write_el(&self, w: &mut Vec<u8>) -> (r: Result<usize, MatroskaError>)
        ensures
            r is Ok <==> el_ok(self.model()),
            r is Ok ==> final(w)@ == old(w)@ + el_bytes(self.model())
                && r->Ok_0 == el_bytes(self.model()).len(),
            r is Err ==> final(w)@ == old(w)@ && r->Err_0 is InvalidVarIntMoreThanVintMax,
    {
        match self {
            Self::ChapString(val) => crate::io::write_el_utf8(w, 0x85, (*val.v).as_str()),
            Self::ChapLanguage(val) => crate::io::write_el_string(w, 0x437C, (*val.v).as_str()),
            Self::ChapLanguageBcp47(val) => crate::io::write_el_string(w, 0x437D, (*val.v).as_str()),
            Self::ChapCountry(val) => crate::io::write_el_string(w, 0x437E, (*val.v).as_str()),
        }
    }
}

impl EbmlField for ChapterDisplayFields {
    open spec fn model(&self) -> FieldModel {
        match self {
            Self::ChapString(e) => FieldModel::Text { id: 0x85, idx: e.index, key: e.id, s: (*e.v)@ },
            Self::ChapLanguage(e) => FieldModel::Text { id: 0x437C, idx: e.index, key: e.id, s: (*e.v)@ },
            Self::ChapLanguageBcp47(e) => FieldModel::Text { id: 0x437D, idx: e.index, key: e.id, s: (*e.v)@ },
            Self::ChapCountry(e) => FieldModel::Text { id: 0x437E, idx: e.index, key: e.id, s: (*e.v)@ },
        }
    }

    fn sort_key(&self) -> (r: (Option<u64>, u64)) {
        match self {
            Self::ChapString(e) => (e.index, e.id),
            Self::ChapLanguage(e) => (e.index, e.id),
            Self::ChapLanguageBcp47(e) => (e.index, e.id),
            Self::ChapCountry(e) => (e.index, e.id),
        }
    }
}

/// The `ChapProcess` structural element.
#[derive(Debug)]
pub struct ChapProcess {
    pub size: u64,
    pub chap_process_codec_id: Ebml<u64>,
    pub chap_process_private: Option<Ebml<Vec<u8>>>,
    pub chap_process_command: Vec<Ebml<ChapProcessCommand>>,
}

/// The models of the `chap_process_command` children of a `ChapProcess`.
pub open spec fn chapprocess_chap_process_command_models(s: Seq<Ebml<ChapProcessCommand>>) -> Seq<FieldModel> {
    s.map_values(|e: Ebml<ChapProcessCommand>| FieldModel::Node { id: 0x6911, idx: e.index, key: e.id, children: (*e.v).model() })
}

impl ChapProcess {
    /// The models of the children, in declaration order.
    #[verifier::opaque]
    pub open spec fn raw_model(self) -> Seq<FieldModel>
    {
        seq![FieldModel::UInt { id: 0x6955, idx: self.chap_process_codec_id.index, key: self.chap_process_codec_id.id, v: *self.chap_process_codec_id.v }]
            + (match self.chap_process_private { Some(e) => seq![FieldModel::Bin { id: 0x450D, idx: e.index, key: e.id, b: (*e.v)@ }], None => Seq::empty() })
            + chapprocess_chap_process_command_models(self.chap_process_command@)
    }

    /// The children in emission order.
    #[verifier::opaque]
    pub open spec fn model(self) -> Seq<FieldModel>
    {
        sort_fields_spec(self.raw_model())
    }

    /// Append the `chap_process_codec_id` child values to a field run.
    #[verifier::loop_isolation(false)]
    fn push_chap_process_codec_id(&self, v: &mut Vec<ChapProcessFields>)
        ensures
            models_of::<ChapProcessFields>(final(v)@) == models_of::<ChapProcessFields>(old(v)@) + seq![FieldModel::UInt { id: 0x6955, idx: self.chap_process_codec_id.index, key: self.chap_process_codec_id.id, v: *self.chap_process_codec_id.v }],
    {
        let ghost prevv = v@;
        v.push(ChapProcessFields::ChapProcessCodecId(crate::dup_ebml_copy(&self.chap_process_codec_id)));
        proof {
            assert(models_of::<ChapProcessFields>(v@) =~= models_of::<ChapProcessFields>(prevv).push(v@.last().model()));
            assert(models_of::<ChapProcessFields>(prevv).push(v@.last().model()) =~= models_of::<ChapProcessFields>(prevv) + seq![FieldModel::UInt { id: 0x6955, idx: self.chap_process_codec_id.index, key: self.chap_process_codec_id.id, v: *self.chap_process_codec_id.v }]);
        }
    }

    /// Append the `chap_process_private` child values to a field run.
    #[verifier::loop_isolation(false)]
    fn push_chap_process_private(&self, v: &mut Vec<ChapProcessFields>)
        ensures
            models_of::<ChapProcessFields>(final(v)@) == models_of::<ChapProcessFields>(old(v)@) + (match &self.chap_process_private { Some(e) => seq![FieldModel::Bin { id: 0x450D, idx: e.index, key: e.id, b: (*e.v)@ }], None => Seq::empty() }),
    {
        match &self.chap_process_private {
            Some(e) => {
                let ghost prevv = v@;
                v.push(ChapProcessFields::ChapProcessPrivate(crate::dup_ebml_bytes(e)));
                proof {
                    assert(models_of::<ChapProcessFields>(v@) =~= models_of::<ChapProcessFields>(prevv).push(v@.last().model()));
                    assert(models_of::<ChapProcessFields>(prevv).push(v@.last().model()) =~= models_of::<ChapProcessFields>(prevv) + (match &self.chap_process_private { Some(e) => seq![FieldModel::Bin { id: 0x450D, idx: e.index, key: e.id, b: (*e.v)@ }], None => Seq::empty() }));
                }
            },
            None => {
                proof {
                    assert(models_of::<ChapProcessFields>(v@) =~= models_of::<ChapProcessFields>(v@) + (match &self.chap_process_private { Some(e) => seq![FieldModel::Bin { id: 0x450D, idx: e.index, key: e.id, b: (*e.v)@ }], None => Seq::empty() }));
                }
            },
        }
    }

    /// Append the `chap_process_command` child values to a field run.
    #[verifier::loop_isolation(false)]
    fn push_chap_process_command(&self, v: &mut Vec<ChapProcessFields>)
        ensures
            models_of::<ChapProcessFields>(final(v)@) == models_of::<ChapProcessFields>(old(v)@) + chapprocess_chap_process_command_models(self.chap_process_command@),
    {
        let ghost base = models_of::<ChapProcessFields>(v@);
        let mut i: usize = 0;
        while i < self.chap_process_command.len()
            invariant
                i <= self.chap_process_command@.len(),
                models_of::<ChapProcessFields>(v@) == base + chapprocess_chap_process_command_models(self.chap_process_command@.take(i as int)),
            decreases self.chap_process_command@.len() - i,
        {
            let e = &self.chap_process_command[i];
            let d = (&*e.v).duplicate();
            proof {
                reveal(ChapProcessCommand::model);
                assert(d.model() == (*e.v).model());
            }
            let ghost prevv = v@;
            v.push(ChapProcessFields::ChapProcessCommand(Ebml { index: e.index, v: Box::new(d), id: e.id }));
            proof {
                assert(self.chap_process_command@.take(i + 1) =~= self.chap_process_command@.take(i as int).push(self.chap_process_command@[i as int]));
                assert(models_of::<ChapProcessFields>(v@) =~= models_of::<ChapProcessFields>(prevv).push(v@.last().model()));
                assert(chapprocess_chap_process_command_models(self.chap_process_command@.take(i + 1)) =~= chapprocess_chap_process_command_models(self.chap_process_command@.take(i as int)).push(v@.last().model()));
                assert(base + chapprocess_chap_process_command_models(self.chap_process_command@.take(i + 1)) =~= (base + chapprocess_chap_process_command_models(self.chap_process_command@.take(i as int))).push(v@.last().model()));
            }
            i += 1;
        }
        proof {
            assert(self.chap_process_command@.take(self.chap_process_command@.len() as int) =~= self.chap_process_command@);
        }
    }

    /// The present children, each paired with its ID, in emission order.
    #[verifier::rlimit(100)]
    #[verifier::spinoff_prover]
    pub fn elements(&self) -> (r: Vec<ChapProcessFields>)
        ensures
            models_of::<ChapProcessFields>(r@) == self.model(),
    {
        let mut v: Vec<ChapProcessFields> = Vec::new();
        proof {
            assert(models_of::<ChapProcessFields>(v@) =~= Seq::<FieldModel>::empty());
        }
        self.push_chap_process_codec_id(&mut v);
        self.push_chap_process_private(&mut v);
        self.push_chap_process_command(&mut v);
        proof {
            reveal(ChapProcess::raw_model);
            reveal(ChapProcess::model);
            assert(Seq::<FieldModel>::empty() + seq![FieldModel::UInt { id: 0x6955, idx: self.chap_process_codec_id.index, key: self.chap_process_codec_id.id, v: *self.chap_process_codec_id.v }] =~= seq![FieldModel::UInt { id: 0x6955, idx: self.chap_process_codec_id.index, key: self.chap_process_codec_id.id, v: *self.chap_process_codec_id.v }]);
            assert(models_of::<ChapProcessFields>(v@) == self.raw_model());
        }
        sort_fields(v)
    }

    /// A deep copy of the `chap_process_codec_id` slot.
    #[verifier::loop_isolation(false)]
    fn dup_chap_process_codec_id(&self) -> (r: Ebml<u64>)
        ensures
            seq![FieldModel::UInt { id: 0x6955, idx: r.index, key: r.id, v: *r.v }] == seq![FieldModel::UInt { id: 0x6955, idx: self.chap_process_codec_id.index, key: self.chap_process_codec_id.id, v: *self.chap_process_codec_id.v }],
    {
        crate::dup_ebml_copy(&self.chap_process_codec_id)
    }

    /// A deep copy of the `chap_process_private` slot.
    #[verifier::loop_isolation(false)]
    fn dup_chap_process_private(&self) -> (r: Option<Ebml<Vec<u8>>>)
        ensures
            (match &r { Some(e) => seq![FieldModel::Bin { id: 0x450D, idx: e.index, key: e.id, b: (*e.v)@ }], None => Seq::empty() }) == (match &self.chap_process_private { Some(e) => seq![FieldModel::Bin { id: 0x450D, idx: e.index, key: e.id, b: (*e.v)@ }], None => Seq::empty() }),
    {
        match &self.chap_process_private {
            Some(e) => Some(crate::dup_ebml_bytes(e)),
            None => None,
        }
    }

    /// A deep copy of the `chap_process_command` slot.
    #[verifier::loop_isolation(false)]
    fn dup_chap_process_command(&self) -> (r: Vec<Ebml<ChapProcessCommand>>)
        ensures
            chapprocess_chap_process_command_models(r@) == chapprocess_chap_process_command_models(self.chap_process_command@),
    {
        let mut out: Vec<Ebml<ChapProcessCommand>> = Vec::new();
        let mut i: usize = 0;
        while i < self.chap_process_command.len()
            invariant
                i <= self.chap_process_command@.len(),
                chapprocess_chap_process_command_models(out@) == chapprocess_chap_process_command_models(self.chap_process_command@.take(i as int)),
            decreases self.chap_process_command@.len() - i,
        {
            let e = &self.chap_process_command[i];
            let d = (&*e.v).duplicate();
            proof {
                reveal(ChapProcessCommand::model);
                assert(d.model() == (*e.v).model());
            }
            let ghost prevo = out@;
            out.push(Ebml { index: e.index, v: Box::new(d), id: e.id });
            proof {
                assert(self.chap_process_command@.take(i + 1) =~= self.chap_process_command@.take(i as int).push(self.chap_process_command@[i as int]));
                assert(out@.drop_last() =~= prevo);
                assert(self.chap_process_command@.take(i + 1).drop_last() =~= self.chap_process_command@.take(i as int));
                assert(FieldModel::Node { id: 0x6911, idx: (out@.last()).index, key: (out@.last()).id, children: (*(out@.last()).v).model() } == FieldModel::Node { id: 0x6911, idx: (self.chap_process_command@[i as int]).index, key: (self.chap_process_command@[i as int]).id, children: (*(self.chap_process_command@[i as int]).v).model() });
                assert(chapprocess_chap_process_command_models(out@) =~= chapprocess_chap_process_command_models(prevo).push(FieldModel::Node { id: 0x6911, idx: (out@.last()).index, key: (out@.last()).id, children: (*(out@.last()).v).model() }));
                assert(chapprocess_chap_process_command_models(self.chap_process_command@.take(i + 1)) =~= chapprocess_chap_process_command_models(self.chap_process_command@.take(i as int)).push(FieldModel::Node { id: 0x6911, idx: (self.chap_process_command@[i as int]).index, key: (self.chap_process_command@[i as int]).id, children: (*(self.chap_process_command@[i as int]).v).model() }));
            }
            i += 1;
        }
        proof {
            assert(self.chap_process_command@.take(self.chap_process_command@.len() as int) =~= self.chap_process_command@);
        }
        out
    }

    /// A deep copy with the same children, positions, and keys.
    #[verifier::rlimit(100)]
    #[verifier::spinoff_prover]
    pub fn duplicate(&self) -> (r: Self)
        ensures
            r.raw_model() == self.raw_model(),
            r.size == self.size,
    {
        let r = ChapProcess {
            size: self.size,
            chap_process_codec_id: self.dup_chap_process_codec_id(),
            chap_process_private: self.dup_chap_process_private(),
            chap_process_command: self.dup_chap_process_command(),
        };
        proof {
            reveal(ChapProcess::raw_model);
            assert(r.raw_model() == self.raw_model());
        }
        r
    }
}

impl ChapProcess {
    /// Serialise the whole element: body to a scratch buffer first, then
    /// the header with the now-known length, then the body.
    pub fn write_blocking(&self, w: &mut Vec<u8>) -> (r: Result<usize, MatroskaError>)
        ensures
            r is Ok <==> body_ok_rec(self.model()) && cat_bytes(self.model()).len() < 0xFFFFFFFFFFFFFF,
            r is Ok ==> final(w)@ == old(w)@ + node_frame_bytes(0x6944, cat_bytes(self.model()))
                && r->Ok_0 == node_frame_bytes(0x6944, cat_bytes(self.model())).len(),
            r is Err ==> final(w)@ == old(w)@ && r->Err_0 is InvalidVarIntMoreThanVintMax,
    {
        let mut buf: Vec<u8> = Vec::new();
        match self.write_body_blocking(&mut buf) {
            Ok(_) => {},
            Err(e) => {
                return Err(e);
            },
        }
        let start = w.len();
        match crate::io::write_element_id_size(w, 0x6944, buf.len() as u64) {
            Ok(_) => {},
            Err(e) => {
                return Err(e);
            },
        }
        w.append(&mut buf);
        Ok(w.len() - start)
    }

    /// Write this element's header with the given body size.
    pub fn write_header_blocking(&self, w: &mut Vec<u8>, size: u64) -> (r: Result<usize, MatroskaError>)
        ensures
            r is Ok <==> crate::io::size_encodable(size),
            r is Ok ==> final(w)@ == old(w)@ + crate::io::header_bytes(0x6944, size)
                && r->Ok_0 == crate::io::header_bytes(0x6944, size).len(),
            r is Err ==> final(w)@ == old(w)@ && r->Err_0 is InvalidVarIntMoreThanVintMax,
    {
        crate::io::write_element_id_size(w, 0x6944, size)
    }

    /// Write the body: every present child, in emission order.
    #[verifier::loop_isolation(false)]
    #[verifier::rlimit(60)]
    #[verifier::spinoff_prover]
    pub fn write_body_blocking(&self, w: &mut Vec<u8>) -> (r: Result<usize, MatroskaError>)
        ensures
            r is Ok <==> body_ok_rec(self.model()),
            r is Ok ==> final(w)@ == old(w)@ + cat_bytes(self.model())
                && r->Ok_0 == cat_bytes(self.model()).len(),
            r is Err ==> r->Err_0 is InvalidVarIntMoreThanVintMax,
    {
        let fields = self.elements();
        let start = w.len();
        let ghost ms = self.model();
        let mut i: usize = 0;
        while i < fields.len()
            invariant
                i <= fields@.len(),
                models_of::<ChapProcessFields>(fields@) == ms,
                w@ == old(w)@ + cat_bytes(ms.take(i as int)),
                body_ok_rec(ms.take(i as int)),
            decreases fields@.len() - i,
        {
            proof {
                assert(models_of::<ChapProcessFields>(fields@)[i as int] == ms[i as int]);
            }
            match fields[i].write_el(w) {
                Ok(_) => {},
                Err(e) => {
                    proof {
                        lemma_body_ok_forall(ms);
                    }
                    return Err(e);
                },
            }
            proof {
                assert(ms.take(i + 1) =~= ms.take(i as int).push(ms[i as int]));
                lemma_cat_snoc(ms.take(i as int), ms[i as int]);
            }
            i += 1;
        }
        proof {
            assert(ms.take(ms.len() as int) =~= ms);
            lemma_body_ok_forall(ms);
        }
        Ok(w.len() - start)
    }
}

/// One present child of a `ChapProcess`, paired with its value.
#[derive(Debug)]
pub enum ChapProcessFields {
    ChapProcessCodecId(Ebml<u64>),
    ChapProcessPrivate(Ebml<Vec<u8>>),
    ChapProcessCommand(Ebml<ChapProcessCommand>),
}

impl ChapProcessFields {
    /// The child's element ID and its two ordering slots.
    #[verifier::rlimit(60)]
    #[verifier::spinoff_prover]
    pub fn index(&self) -> (r: (EbmlId, Option<u64>, u64))
        ensures
            r.0.spec_u64() == self.model().eid(),
            r.1 == self.model().idx(),
            r.2 == self.model().key(),
    {
        match self {
            Self::ChapProcessCodecId(val) => (EbmlId::ChapProcessCodecId, val.index, val.id),
            Self::ChapProcessPrivate(val) => (EbmlId::ChapProcessPrivate, val.index, val.id),
            Self::ChapProcessCommand(val) => (EbmlId::ChapProcessCommand, val.index, val.id),
        }
    }

    /// Write this child's frame.
    #[verifier::rlimit(60)]
    #[verifier::spinoff_prover]
    pub fn write_el(&self, w: &mut Vec<u8>) -> (r: Result<usize, MatroskaError>)
        ensures
            r is Ok <==> el_ok(self.model()),
            r is Ok ==> final(w)@ == old(w)@ + el_bytes(self.model())
                && r->Ok_0 == el_bytes(self.model()).len(),
            r is Err ==> final(w)@ == old(w)@ && r->Err_0 is InvalidVarIntMoreThanVintMax,
    {
        match self {
            Self::ChapProcessCodecId(val) => crate::io::write_el_uint(w, 0x6955, &*val.v),
            Self::ChapProcessPrivate(val) => crate::io::write_el_bin(w, 0x450D, (*val.v).as_slice()),
            Self::ChapProcessCommand(val) => (*val.v).write_blocking(w),
        }
    }
}

impl EbmlField for ChapProcessFields {
    open spec fn model(&self) -> FieldModel {
        match self {
            Self::ChapProcessCodecId(e) => FieldModel::UInt { id: 0x6955, idx: e.index, key: e.id, v: *e.v },
            Self::ChapProcessPrivate(e) => FieldModel::Bin { id: 0x450D, idx: e.index, key: e.id, b: (*e.v)@ },
            Self::ChapProcessCommand(e) => FieldModel::Node { id: 0x6911, idx: e.index, key: e.id, children: (*e.v).model() },
        }
    }

    fn sort_key(&self) -> (r: (Option<u64>, u64)) {
        match self {
            Self::ChapProcessCodecId(e) => (e.index, e.id),
            Self::ChapProcessPrivate(e) => (e.index, e.id),
            Self::ChapProcessCommand(e) => (e.index, e.id),
        }
    }
}

/// The `ChapProcessCommand` structural element.
#[derive(Debug)]
pub struct ChapProcessCommand {
    pub size: u64,
    pub chap_process_time: Ebml<u64>,
    pub chap_process_data: Ebml<Vec<u8>>,
}

impl ChapProcessCommand {
    /// The models of the children, in declaration order.
    #[verifier::opaque]
    pub open spec fn raw_model(self) -> Seq<FieldModel>
    {
        seq![FieldModel::UInt { id: 0x6922, idx: self.chap_process_time.index, key: self.chap_process_time.id, v: *self.chap_process_time.v }]
            + seq![FieldModel::Bin { id: 0x6933, idx: self.chap_process_data.index, key: self.chap_process_data.id, b: (*self.chap_process_data.v)@ }]
    }

    /// The children in emission order.
    #[verifier::opaque]
    pub open spec fn model(self) -> Seq<FieldModel>
    {
        sort_fields_spec(self.raw_model())
    }

    /// Append the `chap_process_time` child values to a field run.
    #[verifier::loop_isolation(false)]
    fn push_chap_process_time(&self, v: &mut Vec<ChapProcessCommandFields>)
        ensures
            models_of::<ChapProcessCommandFields>(final(v)@) == models_of::<ChapProcessCommandFields>(old(v)@) + seq![FieldModel::UInt { id: 0x6922, idx: self.chap_process_time.index, key: self.chap_process_time.id, v: *self.chap_process_time.v }],
    {
        let ghost prevv = v@;
        v.push(ChapProcessCommandFields::ChapProcessTime(crate::dup_ebml_copy(&self.chap_process_time)));
        proof {
            assert(models_of::<ChapProcessCommandFields>(v@) =~= models_of::<ChapProcessCommandFields>(prevv).push(v@.last().model()));
            assert(models_of::<ChapProcessCommandFields>(prevv).push(v@.last().model()) =~= models_of::<ChapProcessCommandFields>(prevv) + seq![FieldModel::UInt { id: 0x6922, idx: self.chap_process_time.index, key: self.chap_process_time.id, v: *self.chap_process_time.v }]);
        }
    }

    /// Append the `chap_process_data` child values to a field run.
    #[verifier::loop_isolation(false)]
    fn push_chap_process_data(&self, v: &mut Vec<ChapProcessCommandFields>)
        ensures
            models_of::<ChapProcessCommandFields>(final(v)@) == models_of::<ChapProcessCommandFields>(old(v)@) + seq![FieldModel::Bin { id: 0x6933, idx: self.chap_process_data.index, key: self.chap_process_data.id, b: (*self.chap_process_data.v)@ }],
    {
        let ghost prevv = v@;
        v.push(ChapProcessCommandFields::ChapProcessData(crate::dup_ebml_bytes(&self.chap_process_data)));
        proof {
            assert(models_of::<ChapProcessCommandFields>(v@) =~= models_of::<ChapProcessCommandFields>(prevv).push(v@.last().model()));
            assert(models_of::<ChapProcessCommandFields>(prevv).push(v@.last().model()) =~= models_of::<ChapProcessCommandFields>(prevv) + seq![FieldModel::Bin { id: 0x6933, idx: self.chap_process_data.index, key: self.chap_process_data.id, b: (*self.chap_process_data.v)@ }]);
        }
    }

    /// The present children, each paired with its ID, in emission order.
    #[verifier::rlimit(100)]
    #[verifier::spinoff_prover]
    pub fn elements(&self) -> (r: Vec<ChapProcessCommandFields>)
        ensures
            models_of::<ChapProcessCommandFields>(r@) == self.model(),
    {
        let mut v: Vec<ChapProcessCommandFields> = Vec::new();
        proof {
            assert(models_of::<ChapProcessCommandFields>(v@) =~= Seq::<FieldModel>::empty());
        }
        self.push_chap_process_time(&mut v);
        self.push_chap_process_data(&mut v);
        proof {
            reveal(ChapProcessCommand::raw_model);
            reveal(ChapProcessCommand::model);
            assert(Seq::<FieldModel>::empty() + seq![FieldModel::UInt { id: 0x6922, idx: self.chap_process_time.index, key: self.chap_process_time.id, v: *self.chap_process_time.v }] =~= seq![FieldModel::UInt { id: 0x6922, idx: self.chap_process_time.index, key: self.chap_process_time.id, v: *self.chap_process_time.v }]);
            assert(models_of::<ChapProcessCommandFields>(v@) == self.raw_model());
        }
        sort_fields(v)
    }

    /// A deep copy of the `chap_process_time` slot.
    #[verifier::loop_isolation(false)]
    fn dup_chap_process_time(&self) -> (r: Ebml<u64>)
        ensures
            seq![FieldModel::UInt { id: 0x6922, idx: r.index, key: r.id, v: *r.v }] == seq![FieldModel::UInt { id: 0x6922, idx: self.chap_process_time.index, key: self.chap_process_time.id, v: *self.chap_process_time.v }],
    {
        crate::dup_ebml_copy(&self.chap_process_time)
    }

    /// A deep copy of the `chap_process_data` slot.
    #[verifier::loop_isolation(false)]
    fn dup_chap_process_data(&self) -> (r: Ebml<Vec<u8>>)
        ensures
            seq![FieldModel::Bin { id: 0x6933, idx: r.index, key: r.id, b: (*r.v)@ }] == seq![FieldModel::Bin { id: 0x6933, idx: self.chap_process_data.index, key: self.chap_process_data.id, b: (*self.chap_process_data.v)@ }],
    {
        crate::dup_ebml_bytes(&self.chap_process_data)
    }

    /// A deep copy with the same children, positions, and keys.
    #[verifier::rlimit(100)]
    #[verifier::spinoff_prover]
    pub fn duplicate(&self) -> (r: Self)
        ensures
            r.raw_model() == self.raw_model(),
            r.size == self.size,
    {
        let r = ChapProcessCommand {
            size: self.size,
            chap_process_time: self.dup_chap_process_time(),
            chap_process_data: self.dup_chap_process_data(),
        };
        proof {
            reveal(ChapProcessCommand::raw_model);
            assert(r.raw_model() == self.raw_model());
        }
        r
    }
}

impl ChapProcessCommand {
    /// Serialise the whole element: body to a scratch buffer first, then
    /// the header with the now-known length, then the body.
    pub fn write_blocking(&self, w: &mut Vec<u8>) -> (r: Result<usize, MatroskaError>)
        ensures
            r is Ok <==> body_ok_rec(self.model()) && cat_bytes(self.model()).len() < 0xFFFFFFFFFFFFFF,
            r is Ok ==> final(w)@ == old(w)@ + node_frame_bytes(0x6911, cat_bytes(self.model()))
                && r->Ok_0 == node_frame_bytes(0x6911, cat_bytes(self.model())).len(),
            r is Err ==> final(w)@ == old(w)@ && r->Err_0 is InvalidVarIntMoreThanVintMax,
    {
        let mut buf: Vec<u8> = Vec::new();
        match self.write_body_blocking(&mut buf) {
            Ok(_) => {},
            Err(e) => {
                return Err(e);
            },
        }
        let start = w.len();
        match crate::io::write_element_id_size(w, 0x6911, buf.len() as u64) {
            Ok(_) => {},
            Err(e) => {
                return Err(e);
            },
        }
        w.append(&mut buf);
        Ok(w.len() - start)
    }

    /// Write this element's header with the given body size.
    pub fn write_header_blocking(&self, w: &mut Vec<u8>, size: u64) -> (r: Result<usize, MatroskaError>)
        ensures
            r is Ok <==> crate::io::size_encodable(size),
            r is Ok ==> final(w)@ == old(w)@ + crate::io::header_bytes(0x6911, size)
                && r->Ok_0 == crate::io::header_bytes(0x6911, size).len(),
            r is Err ==> final(w)@ == old(w)@ && r->Err_0 is InvalidVarIntMoreThanVintMax,
    {
        crate::io::write_element_id_size(w, 0x6911, size)
    }

    /// Write the body: every present child, in emission order.
    #[verifier::loop_isolation(false)]
    #[verifier::rlimit(60)]
    #[verifier::spinoff_prover]
    pub fn write_body_blocking(&self, w: &mut Vec<u8>) -> (r: Result<usize, MatroskaError>)
        ensures
            r is Ok <==> body_ok_rec(self.model()),
            r is Ok ==> final(w)@ == old(w)@ + cat_bytes(self.model())
                && r->Ok_0 == cat_bytes(self.model()).len(),
            r is Err ==> r->Err_0 is InvalidVarIntMoreThanVintMax,
    {
        let fields = self.elements();
        let start = w.len();
        let ghost ms = self.model();
        let mut i: usize = 0;
        while i < fields.len()
            invariant
                i <= fields@.len(),
                models_of::<ChapProcessCommandFields>(fields@) == ms,
                w@ == old(w)@ + cat_bytes(ms.take(i as int)),
                body_ok_rec(ms.take(i as int)),
            decreases fields@.len() - i,
        {
            proof {
                assert(models_of::<ChapProcessCommandFields>(fields@)[i as int] == ms[i as int]);
            }
            match fields[i].write_el(w) {
                Ok(_) => {},
                Err(e) => {
                    proof {
                        lemma_body_ok_forall(ms);
                    }
                    return Err(e);
                },
            }
            proof {
                assert(ms.take(i + 1) =~= ms.take(i as int).push(ms[i as int]));
                lemma_cat_snoc(ms.take(i as int), ms[i as int]);
            }
            i += 1;
        }
        proof {
            assert(ms.take(ms.len() as int) =~= ms);
            lemma_body_ok_forall(ms);
        }
        Ok(w.len() - start)
    }
}

/// One present child of a `ChapProcessCommand`, paired with its value.
#[derive(Debug)]
pub enum ChapProcessCommandFields {
    ChapProcessTime(Ebml<u64>),
    ChapProcessData(Ebml<Vec<u8>>),
}

impl ChapProcessCommandFields {
    /// The child's element ID and its two ordering slots.
    #[verifier::rlimit(60)]
    #[verifier::spinoff_prover]
    pub fn index(&self) -> (r: (EbmlId, Option<u64>, u64))
        ensures
            r.0.spec_u64() == self.model().eid(),
            r.1 == self.model().idx(),
            r.2 == self.model().key(),
    {
        match self {
            Self::ChapProcessTime(val) => (EbmlId::ChapProcessTime, val.index, val.id),
            Self::ChapProcessData(val) => (EbmlId::ChapProcessData, val.index, val.id),
        }
    }

    /// Write this child's frame.
    #[verifier::rlimit(60)]
    #[verifier::spinoff_prover]
    pub fn write_el(&self, w: &mut Vec<u8>) -> (r: Result<usize, MatroskaError>)
        ensures
            r is Ok <==> el_ok(self.model()),
            r is Ok ==> final(w)@ == old(w)@ + el_bytes(self.model())
                && r->Ok_0 == el_bytes(self.model()).len(),
            r is Err ==> final(w)@ == old(w)@ && r->Err_0 is InvalidVarIntMoreThanVintMax,
    {
        match self {
            Self::ChapProcessTime(val) => crate::io::write_el_uint(w, 0x6922, &*val.v),
            Self::ChapProcessData(val) => crate::io::write_el_bin(w, 0x6933, (*val.v).as_slice()),
        }
    }
}

impl EbmlField for ChapProcessCommandFields {
    open spec fn model(&self) -> FieldModel {
        match self {
            Self::ChapProcessTime(e) => FieldModel::UInt { id: 0x6922, idx: e.index, key: e.id, v: *e.v },
            Self::ChapProcessData(e) => FieldModel::Bin { id: 0x6933, idx: e.index, key: e.id, b: (*e.v)@ },
        }
    }

    fn sort_key(&self) -> (r: (Option<u64>, u64)) {
        match self {
            Self::ChapProcessTime(e) => (e.index, e.id),
            Self::ChapProcessData(e) => (e.index, e.id),
        }
    }
}

/// The `Tags` structural element.
#[derive(Debug)]
pub struct Tags {
    pub size: u64,
    pub tag: Vec<Ebml<Tag>>,
}

/// The models of the `tag` children of a `Tags`.
pub open spec fn tags_tag_models(s: Seq<Ebml<Tag>>) -> Seq<FieldModel> {
    s.map_values(|e: Ebml<Tag>| FieldModel::Node { id: 0x7373, idx: e.index, key: e.id, children: (*e.v).model() })
}

impl Tags {
    /// The models of the children, in declaration order.
    #[verifier::opaque]
    pub open spec fn raw_model(self) -> Seq<FieldModel>
    {
        tags_tag_models(self.tag@)
    }

    /// The children in emission order.
    #[verifier::opaque]
    pub open spec fn model(self) -> Seq<FieldModel>
    {
        sort_fields_spec(self.raw_model())
    }

    /// Append the `tag` child values to a field run.
    #[verifier::loop_isolation(false)]
    fn push_tag(&self, v: &mut Vec<TagsFields>)
        ensures
            models_of::<TagsFields>(final(v)@) == models_of::<TagsFields>(old(v)@) + tags_tag_models(self.tag@),
    {
        let ghost base = models_of::<TagsFields>(v@);
        let mut i: usize = 0;
        while i < self.tag.len()
            invariant
                i <= self.tag@.len(),
                models_of::<TagsFields>(v@) == base + tags_tag_models(self.tag@.take(i as int)),
            decreases self.tag@.len() - i,
        {
            let e = &self.tag[i];
            let d = (&*e.v).duplicate();
            proof {
                reveal(Tag::model);
                assert(d.model() == (*e.v).model());
            }
            let ghost prevv = v@;
            v.push(TagsFields::Tag(Ebml { index: e.index, v: Box::new(d), id: e.id }));
            proof {
                assert(self.tag@.take(i + 1) =~= self.tag@.take(i as int).push(self.tag@[i as int]));
                assert(models_of::<TagsFields>(v@) =~= models_of::<TagsFields>(prevv).push(v@.last().model()));
                assert(tags_tag_models(self.tag@.take(i + 1)) =~= tags_tag_models(self.tag@.take(i as int)).push(v@.last().model()));
                assert(base + tags_tag_models(self.tag@.take(i + 1)) =~= (base + tags_tag_models(self.tag@.take(i as int))).push(v@.last().model()));
            }
            i += 1;
        }
        proof {
            assert(self.tag@.take(self.tag@.len() as int) =~= self.tag@);
        }
    }

    /// The present children, each paired with its ID, in emission order.
    #[verifier::rlimit(100)]
    #[verifier::spinoff_prover]
    pub fn elements(&self) -> (r: Vec<TagsFields>)
        ensures
            models_of::<TagsFields>(r@) == self.model(),
    {
        let mut v: Vec<TagsFields> = Vec::new();
        proof {
            assert(models_of::<TagsFields>(v@) =~= Seq::<FieldModel>::empty());
        }
        self.push_tag(&mut v);
        proof {
            reveal(Tags::raw_model);
            reveal(Tags::model);
            assert(Seq::<FieldModel>::empty() + tags_tag_models(self.tag@) =~= tags_tag_models(self.tag@));
            assert(models_of::<TagsFields>(v@) == self.raw_model());
        }
        sort_fields(v)
    }

    /// A deep copy of the `tag` slot.
    #[verifier::loop_isolation(false)]
    fn dup_tag(&self) -> (r: Vec<Ebml<Tag>>)
        ensures
            tags_tag_models(r@) == tags_tag_models(self.tag@),
    {
        let mut out: Vec<Ebml<Tag>> = Vec::new();
        let mut i: usize = 0;
        while i < self.tag.len()
            invariant
                i <= self.tag@.len(),
                tags_tag_models(out@) == tags_tag_models(self.tag@.take(i as int)),
            decreases self.tag@.len() - i,
        {
            let e = &self.tag[i];
            let d = (&*e.v).duplicate();
            proof {
                reveal(Tag::model);
                assert(d.model() == (*e.v).model());
            }
            let ghost prevo = out@;
            out.push(Ebml { index: e.index, v: Box::new(d), id: e.id });
            proof {
                assert(self.tag@.take(i + 1) =~= self.tag@.take(i as int).push(self.tag@[i as int]));
                assert(out@.drop_last() =~= prevo);
                assert(self.tag@.take(i + 1).drop_last() =~= self.tag@.take(i as int));
                assert(FieldModel::Node { id: 0x7373, idx: (out@.last()).index, key: (out@.last()).id, children: (*(out@.last()).v).model() } == FieldModel::Node { id: 0x7373, idx: (self.tag@[i as int]).index, key: (self.tag@[i as int]).id, children: (*(self.tag@[i as int]).v).model() });
                assert(tags_tag_models(out@) =~= tags_tag_models(prevo).push(FieldModel::Node { id: 0x7373, idx: (out@.last()).index, key: (out@.last()).id, children: (*(out@.last()).v).model() }));
                assert(tags_tag_models(self.tag@.take(i + 1)) =~= tags_tag_models(self.tag@.take(i as int)).push(FieldModel::Node { id: 0x7373, idx: (self.tag@[i as int]).index, key: (self.tag@[i as int]).id, children: (*(self.tag@[i as int]).v).model() }));
            }
            i += 1;
        }
        proof {
            assert(self.tag@.take(self.tag@.len() as int) =~= self.tag@);
        }
        out
    }

    /// A deep copy with the same children, positions, and keys.
    #[verifier::rlimit(100)]
    #[verifier::spinoff_prover]
    pub fn duplicate(&self) -> (r: Self)
        ensures
            r.raw_model() == self.raw_model(),
            r.size == self.size,
    {
        let r = Tags {
            size: self.size,
            tag: self.dup_tag(),
        };
        proof {
            reveal(Tags::raw_model);
            assert(r.raw_model() == self.raw_model());
        }
        r
    }
}

impl Tags {
    /// Serialise the whole element: body to a scratch buffer first, then
    /// the header with the now-known length, then the body.
    pub fn write_blocking(&self, w: &mut Vec<u8>) -> (r: Result<usize, MatroskaError>)
        ensures
            r is Ok <==> body_ok_rec(self.model()) && cat_bytes(self.model()).len() < 0xFFFFFFFFFFFFFF,
            r is Ok ==> final(w)@ == old(w)@ + node_frame_bytes(0x1254C367, cat_bytes(self.model()))
                && r->Ok_0 == node_frame_bytes(0x1254C367, cat_bytes(self.model())).len(),
            r is Err ==> final(w)@ == old(w)@ && r->Err_0 is InvalidVarIntMoreThanVintMax,
    {
        let mut buf: Vec<u8> = Vec::new();
        match self.write_body_blocking(&mut buf) {
            Ok(_) => {},
            Err(e) => {
                return Err(e);
            },
        }
        let start = w.len();
        match crate::io::write_element_id_size(w, 0x1254C367, buf.len() as u64) {
            Ok(_) => {},
            Err(e) => {
                return Err(e);
            },
        }
        w.append(&mut buf);
        Ok(w.len() - start)
    }

    /// Write this element's header with the given body size.
    pub fn write_header_blocking(&self, w: &mut Vec<u8>, size: u64) -> (r: Result<usize, MatroskaError>)
        ensures
            r is Ok <==> crate::io::size_encodable(size),
            r is Ok ==> final(w)@ == old(w)@ + crate::io::header_bytes(0x1254C367, size)
                && r->Ok_0 == crate::io::header_bytes(0x1254C367, size).len(),
            r is Err ==> final(w)@ == old(w)@ && r->Err_0 is InvalidVarIntMoreThanVintMax,
    {
        crate::io::write_element_id_size(w, 0x1254C367, size)
    }

    /// Write the body: every present child, in emission order.
    #[verifier::loop_isolation(false)]
    #[verifier::rlimit(60)]
    #[verifier::spinoff_prover]
    pub fn write_body_blocking(&self, w: &mut Vec<u8>) -> (r: Result<usize, MatroskaError>)
        ensures
            r is Ok <==> body_ok_rec(self.model()),
            r is Ok ==> final(w)@ == old(w)@ + cat_bytes(self.model())
                && r->Ok_0 == cat_bytes(self.model()).len(),
            r is Err ==> r->Err_0 is InvalidVarIntMoreThanVintMax,
    {
        let fields = self.elements();
        let start = w.len();
        let ghost ms = self.model();
        let mut i: usize = 0;
        while i < fields.len()
            invariant
                i <= fields@.len(),
                models_of::<TagsFields>(fields@) == ms,
                w@ == old(w)@ + cat_bytes(ms.take(i as int)),
                body_ok_rec(ms.take(i as int)),
            decreases fields@.len() - i,
        {
            proof {
                assert(models_of::<TagsFields>(fields@)[i as int] == ms[i as int]);
            }
            match fields[i].write_el(w) {
                Ok(_) => {},
                Err(e) => {
                    proof {
                        lemma_body_ok_forall(ms);
                    }
                    return Err(e);
                },
            }
            proof {
                assert(ms.take(i + 1) =~= ms.take(i as int).push(ms[i as int]));
                lemma_cat_snoc(ms.take(i as int), ms[i as int]);
            }
            i += 1;
        }
        proof {
            assert(ms.take(ms.len() as int) =~= ms);
            lemma_body_ok_forall(ms);
        }
        Ok(w.len() - start)
    }
}

/// One present child of a `Tags`, paired with its value.
#[derive(Debug)]
pub enum TagsFields {
    Tag(Ebml<Tag>),
}

impl TagsFields {
    /// The child's element ID and its two ordering slots.
    #[verifier::rlimit(60)]
    #[verifier::spinoff_prover]
    pub fn index(&self) -> (r: (EbmlId, Option<u64>, u64))
        ensures
            r.0.spec_u64() == self.model().eid(),
            r.1 == self.model().idx(),
            r.2 == self.model().key(),
    {
        match self {
            Self::Tag(val) => (EbmlId::Tag, val.index, val.id),
        }
    }

    /// Write this child's frame.
    #[verifier::rlimit(60)]
    #[verifier::spinoff_prover]
    pub fn write_el(&self, w: &mut Vec<u8>) -> (r: Result<usize, MatroskaError>)
        ensures
            r is Ok <==> el_ok(self.model()),
            r is Ok ==> final(w)@ == old(w)@ + el_bytes(self.model())
                && r->Ok_0 == el_bytes(self.model()).len(),
            r is Err ==> final(w)@ == old(w)@ && r->Err_0 is InvalidVarIntMoreThanVintMax,
    {
        match self {
            Self::Tag(val) => (*val.v).write_blocking(w),
        }
    }
}

impl EbmlField for TagsFields {
    open spec fn model(&self) -> FieldModel {
        match self {
            Self::Tag(e) => FieldModel::Node { id: 0x7373, idx: e.index, key: e.id, children: (*e.v).model() },
        }
    }

    fn sort_key(&self) -> (r: (Option<u64>, u64)) {
        match self {
            Self::Tag(e) => (e.index, e.id),
        }
    }
}

/// The `Tag` structural element.
#[derive(Debug)]
pub struct Tag {
    pub size: u64,
    pub targets: Ebml<Targets>,
    pub simple_tag: Vec<Ebml<SimpleTag>>,
}

/// The models of the `simple_tag` children of a `Tag`.
pub open spec fn tag_simple_tag_models(s: Seq<Ebml<SimpleTag>>) -> Seq<FieldModel> {
    s.map_values(|e: Ebml<SimpleTag>| FieldModel::Node { id: 0x67C8, idx: e.index, key: e.id, children: (*e.v).model() })
}

impl Tag {
    /// The models of the children, in declaration order.
    #[verifier::opaque]
    pub open spec fn raw_model(self) -> Seq<FieldModel>
    {
        seq![FieldModel::Node { id: 0x63C0, idx: self.targets.index, key: self.targets.id, children: (*self.targets.v).model() }]
            + tag_simple_tag_models(self.simple_tag@)
    }

    /// The children in emission order.
    #[verifier::opaque]
    pub open spec fn model(self) -> Seq<FieldModel>
    {
        sort_fields_spec(self.raw_model())
    }

    /// Append the `targets` child values to a field run.
    #[verifier::loop_isolation(false)]
    fn push_targets(&self, v: &mut Vec<TagFields>)
        ensures
            models_of::<TagFields>(final(v)@) == models_of::<TagFields>(old(v)@) + seq![FieldModel::Node { id: 0x63C0, idx: self.targets.index, key: self.targets.id, children: (*self.targets.v).model() }],
    {
        let d = (&*self.targets.v).duplicate();
        proof {
            reveal(Targets::model);
            assert(d.model() == (*self.targets.v).model());
        }
        let ghost prevv = v@;
        v.push(TagFields::Targets(Ebml { index: self.targets.index, v: Box::new(d), id: self.targets.id }));
        proof {
            assert(models_of::<TagFields>(v@) =~= models_of::<TagFields>(prevv).push(v@.last().model()));
            assert(models_of::<TagFields>(prevv).push(v@.last().model()) =~= models_of::<TagFields>(prevv) + seq![FieldModel::Node { id: 0x63C0, idx: self.targets.index, key: self.targets.id, children: (*self.targets.v).model() }]);
        }
    }

    /// Append the `simple_tag` child values to a field run.
    #[verifier::loop_isolation(false)]
    fn push_simple_tag(&self, v: &mut Vec<TagFields>)
        ensures
            models_of::<TagFields>(final(v)@) == models_of::<TagFields>(old(v)@) + tag_simple_tag_models(self.simple_tag@),
    {
        let ghost base = models_of::<TagFields>(v@);
        let mut i: usize = 0;
        while i < self.simple_tag.len()
            invariant
                i <= self.simple_tag@.len(),
                models_of::<TagFields>(v@) == base + tag_simple_tag_models(self.simple_tag@.take(i as int)),
            decreases self.simple_tag@.len() - i,
        {
            let e = &self.simple_tag[i];
            let d = (&*e.v).duplicate();
            proof {
                reveal(SimpleTag::model);
                assert(d.model() == (*e.v).model());
            }
            let ghost prevv = v@;
            v.push(TagFields::SimpleTag(Ebml { index: e.index, v: Box::new(d), id: e.id }));
            proof {
                assert(self.simple_tag@.take(i + 1) =~= self.simple_tag@.take(i as int).push(self.simple_tag@[i as int]));
                assert(models_of::<TagFields>(v@) =~= models_of::<TagFields>(prevv).push(v@.last().model()));
                assert(tag_simple_tag_models(self.simple_tag@.take(i + 1)) =~= tag_simple_tag_models(self.simple_tag@.take(i as int)).push(v@.last().model()));
                assert(base + tag_simple_tag_models(self.simple_tag@.take(i + 1)) =~= (base + tag_simple_tag_models(self.simple_tag@.take(i as int))).push(v@.last().model()));
            }
            i += 1;
        }
        proof {
            assert(self.simple_tag@.take(self.simple_tag@.len() as int) =~= self.simple_tag@);
        }
    }

    /// The present children, each paired with its ID, in emission order.
    #[verifier::rlimit(100)]
    #[verifier::spinoff_prover]
    pub fn elements(&self) -> (r: Vec<TagFields>)
        ensures
            models_of::<TagFields>(r@) == self.model(),
    {
        let mut v: Vec<TagFields> = Vec::new();
        proof {
            assert(models_of::<TagFields>(v@) =~= Seq::<FieldModel>::empty());
        }
        self.push_targets(&mut v);
        self.push_simple_tag(&mut v);
        proof {
            reveal(Tag::raw_model);
            reveal(Tag::model);
            assert(Seq::<FieldModel>::empty() + seq![FieldModel::Node { id: 0x63C0, idx: self.targets.index, key: self.targets.id, children: (*self.targets.v).model() }] =~= seq![FieldModel::Node { id: 0x63C0, idx: self.targets.index, key: self.targets.id, children: (*self.targets.v).model() }]);
            assert(models_of::<TagFields>(v@) == self.raw_model());
        }
        sort_fields(v)
    }

    /// A deep copy of the `targets` slot.
    #[verifier::loop_isolation(false)]
    fn dup_targets(&self) -> (r: Ebml<Targets>)
        ensures
            seq![FieldModel::Node { id: 0x63C0, idx: r.index, key: r.id, children: (*r.v).model() }] == seq![FieldModel::Node { id: 0x63C0, idx: self.targets.index, key: self.targets.id, children: (*self.targets.v).model() }],
    {
        let d = (&*self.targets.v).duplicate();
        proof {
            reveal(Targets::model);
            assert(d.model() == (*self.targets.v).model());
        }
        Ebml { index: self.targets.index, v: Box::new(d), id: self.targets.id }
    }

    /// A deep copy of the `simple_tag` slot.
    #[verifier::loop_isolation(false)]
    fn dup_simple_tag(&self) -> (r: Vec<Ebml<SimpleTag>>)
        ensures
            tag_simple_tag_models(r@) == tag_simple_tag_models(self.simple_tag@),
    {
        let mut out: Vec<Ebml<SimpleTag>> = Vec::new();
        let mut i: usize = 0;
        while i < self.simple_tag.len()
            invariant
                i <= self.simple_tag@.len(),
                tag_simple_tag_models(out@) == tag_simple_tag_models(self.simple_tag@.take(i as int)),
            decreases self.simple_tag@.len() - i,
        {
            let e = &self.simple_tag[i];
            let d = (&*e.v).duplicate();
            proof {
                reveal(SimpleTag::model);
                assert(d.model() == (*e.v).model());
            }
            let ghost prevo = out@;
            out.push(Ebml { index: e.index, v: Box::new(d), id: e.id });
            proof {
                assert(self.simple_tag@.take(i + 1) =~= self.simple_tag@.take(i as int).push(self.simple_tag@[i as int]));
                assert(out@.drop_last() =~= prevo);
                assert(self.simple_tag@.take(i + 1).drop_last() =~= self.simple_tag@.take(i as int));
                assert(FieldModel::Node { id: 0x67C8, idx: (out@.last()).index, key: (out@.last()).id, children: (*(out@.last()).v).model() } == FieldModel::Node { id: 0x67C8, idx: (self.simple_tag@[i as int]).index, key: (self.simple_tag@[i as int]).id, children: (*(self.simple_tag@[i as int]).v).model() });
                assert(tag_simple_tag_models(out@) =~= tag_simple_tag_models(prevo).push(FieldModel::Node { id: 0x67C8, idx: (out@.last()).index, key: (out@.last()).id, children: (*(out@.last()).v).model() }));
                assert(tag_simple_tag_models(self.simple_tag@.take(i + 1)) =~= tag_simple_tag_models(self.simple_tag@.take(i as int)).push(FieldModel::Node { id: 0x67C8, idx: (self.simple_tag@[i as int]).index, key: (self.simple_tag@[i as int]).id, children: (*(self.simple_tag@[i as int]).v).model() }));
            }
            i += 1;
        }
        proof {
            assert(self.simple_tag@.take(self.simple_tag@.len() as int) =~= self.simple_tag@);
        }
        out
    }

    /// A deep copy with the same children, positions, and keys.
    #[verifier::rlimit(100)]
    #[verifier::spinoff_prover]
    pub fn duplicate(&self) -> (r: Self)
        ensures
            r.raw_model() == self.raw_model(),
            r.size == self.size,
    {
        let r = Tag {
            size: self.size,
            targets: self.dup_targets(),
            simple_tag: self.dup_simple_tag(),
        };
        proof {
            reveal(Tag::raw_model);
            assert(r.raw_model() == self.raw_model());
        }
        r
    }
}

impl Tag {
    /// Serialise the whole element: body to a scratch buffer first, then
    /// the header with the now-known length, then the body.
    pub fn write_blocking(&self, w: &mut Vec<u8>) -> (r: Result<usize, MatroskaError>)
        ensures
            r is Ok <==> body_ok_rec(self.model()) && cat_bytes(self.model()).len() < 0xFFFFFFFFFFFFFF,
            r is Ok ==> final(w)@ == old(w)@ + node_frame_bytes(0x7373, cat_bytes(self.model()))
                && r->Ok_0 == node_frame_bytes(0x7373, cat_bytes(self.model())).len(),
            r is Err ==> final(w)@ == old(w)@ && r->Err_0 is InvalidVarIntMoreThanVintMax,
    {
        let mut buf: Vec<u8> = Vec::new();
        match self.write_body_blocking(&mut buf) {
            Ok(_) => {},
            Err(e) => {
                return Err(e);
            },
        }
        let start = w.len();
        match crate::io::write_element_id_size(w, 0x7373, buf.len() as u64) {
            Ok(_) => {},
            Err(e) => {
                return Err(e);
            },
        }
        w.append(&mut buf);
        Ok(w.len() - start)
    }

    /// Write this element's header with the given body size.
    pub fn write_header_blocking(&self, w: &mut Vec<u8>, size: u64) -> (r: Result<usize, MatroskaError>)
        ensures
            r is Ok <==> crate::io::size_encodable(size),
            r is Ok ==> final(w)@ == old(w)@ + crate::io::header_bytes(0x7373, size)
                && r->Ok_0 == crate::io::header_bytes(0x7373, size).len(),
            r is Err ==> final(w)@ == old(w)@ && r->Err_0 is InvalidVarIntMoreThanVintMax,
    {
        crate::io::write_element_id_size(w, 0x7373, size)
    }

    /// Write the body: every present child, in emission order.
    #[verifier::loop_isolation(false)]
    #[verifier::rlimit(60)]
    #[verifier::spinoff_prover]
    pub fn write_body_blocking(&self, w: &mut Vec<u8>) -> (r: Result<usize, MatroskaError>)
        ensures
            r is Ok <==> body_ok_rec(self.model()),
            r is Ok ==> final(w)@ == old(w)@ + cat_bytes(self.model())
                && r->Ok_0 == cat_bytes(self.model()).len(),
            r is Err ==> r->Err_0 is InvalidVarIntMoreThanVintMax,
    {
        let fields = self.elements();
        let start = w.len();
        let ghost ms = self.model();
        let mut i: usize = 0;
        while i < fields.len()
            invariant
                i <= fields@.len(),
                models_of::<TagFields>(fields@) == ms,
                w@ == old(w)@ + cat_bytes(ms.take(i as int)),
                body_ok_rec(ms.take(i as int)),
            decreases fields@.len() - i,
        {
            proof {
                assert(models_of::<TagFields>(fields@)[i as int] == ms[i as int]);
            }
            match fields[i].write_el(w) {
                Ok(_) => {},
                Err(e) => {
                    proof {
                        lemma_body_ok_forall(ms);
                    }
                    return Err(e);
                },
            }
            proof {
                assert(ms.take(i + 1) =~= ms.take(i as int).push(ms[i as int]));
                lemma_cat_snoc(ms.take(i as int), ms[i as int]);
            }
            i += 1;
        }
        proof {
            assert(ms.take(ms.len() as int) =~= ms);
            lemma_body_ok_forall(ms);
        }
        Ok(w.len() - start)
    }
}

/// One present child of a `Tag`, paired with its value.
#[derive(Debug)]
pub enum TagFields {
    Targets(Ebml<Targets>),
    SimpleTag(Ebml<SimpleTag>),
}

impl TagFields {
    /// The child's element ID and its two ordering slots.
    #[verifier::rlimit(60)]
    #[verifier::spinoff_prover]
    pub fn index(&self) -> (r: (EbmlId, Option<u64>, u64))
        ensures
            r.0.spec_u64() == self.model().eid(),
            r.1 == self.model().idx(),
            r.2 == self.model().key(),
    {
        match self {
            Self::Targets(val) => (EbmlId::Targets, val.index, val.id),
            Self::SimpleTag(val) => (EbmlId::SimpleTag, val.index, val.id),
        }
    }

    /// Write this child's frame.
    #[verifier::rlimit(60)]
    #[verifier::spinoff_prover]
    pub fn write_el(&self, w: &mut Vec<u8>) -> (r: Result<usize, MatroskaError>)
        ensures
            r is Ok <==> el_ok(self.model()),
            r is Ok ==> final(w)@ == old(w)@ + el_bytes(self.model())
                && r->Ok_0 == el_bytes(self.model()).len(),
            r is Err ==> final(w)@ == old(w)@ && r->Err_0 is InvalidVarIntMoreThanVintMax,
    {
        match self {
            Self::Targets(val) => (*val.v).write_blocking(w),
            Self::SimpleTag(val) => (*val.v).write_blocking(w),
        }
    }
}

impl EbmlField for TagFields {
    open spec fn model(&self) -> FieldModel {
        match self {
            Self::Targets(e) => FieldModel::Node { id: 0x63C0, idx: e.index, key: e.id, children: (*e.v).model() },
            Self::SimpleTag(e) => FieldModel::Node { id: 0x67C8, idx: e.index, key: e.id, children: (*e.v).model() },
        }
    }

    fn sort_key(&self) -> (r: (Option<u64>, u64)) {
        match self {
            Self::Targets(e) => (e.index, e.id),
            Self::SimpleTag(e) => (e.index, e.id),
        }
    }
}

/// The `Targets` structural element.
#[derive(Debug)]
pub struct Targets {
    pub size: u64,
    pub target_type_value: Ebml<u64>,
    pub target_type: Option<Ebml<String>>,
    pub tag_track_uid: Vec<Ebml<u64>>,
    pub tag_edition_uid: Vec<Ebml<u64>>,
    pub tag_chapter_uid: Vec<Ebml<u64>>,
    pub tag_attachment_uid: Vec<Ebml<u64>>,
}

/// The models of the `tag_track_uid` children of a `Targets`.
pub open spec fn targets_tag_track_uid_models(s: Seq<Ebml<u64>>) -> Seq<FieldModel> {
    s.map_values(|e: Ebml<u64>| FieldModel::UInt { id: 0x63C5, idx: e.index, key: e.id, v: *e.v })
}

/// The models of the `tag_edition_uid` children of a `Targets`.
pub open spec fn targets_tag_edition_uid_models(s: Seq<Ebml<u64>>) -> Seq<FieldModel> {
    s.map_values(|e: Ebml<u64>| FieldModel::UInt { id: 0x63C9, idx: e.index, key: e.id, v: *e.v })
}

/// The models of the `tag_chapter_uid` children of a `Targets`.
pub open spec fn targets_tag_chapter_uid_models(s: Seq<Ebml<u64>>) -> Seq<FieldModel> {
    s.map_values(|e: Ebml<u64>| FieldModel::UInt { id: 0x63C4, idx: e.index, key: e.id, v: *e.v })
}

/// The models of the `tag_attachment_uid` children of a `Targets`.
pub open spec fn targets_tag_attachment_uid_models(s: Seq<Ebml<u64>>) -> Seq<FieldModel> {
    s.map_values(|e: Ebml<u64>| FieldModel::UInt { id: 0x63C6, idx: e.index, key: e.id, v: *e.v })
}

impl Targets {
    /// The models of the children, in declaration order.
    #[verifier::opaque]
    pub open spec fn raw_model(self) -> Seq<FieldModel>
    {
        seq![FieldModel::UInt { id: 0x68CA, idx: self.target_type_value.index, key: self.target_type_value.id, v: *self.target_type_value.v }]
            + (match self.target_type { Some(e) => seq![FieldModel::Text { id: 0x63CA, idx: e.index, key: e.id, s: (*e.v)@ }], None => Seq::empty() })
            + targets_tag_track_uid_models(self.tag_track_uid@)
            + targets_tag_edition_uid_models(self.tag_edition_uid@)
            + targets_tag_chapter_uid_models(self.tag_chapter_uid@)
            + targets_tag_attachment_uid_models(self.tag_attachment_uid@)
    }

    /// The children in emission order.
    #[verifier::opaque]
    pub open spec fn model(self) -> Seq<FieldModel>
    {
        sort_fields_spec(self.raw_model())
    }

    /// Append the `target_type_value` child values to a field run.
    #[verifier::loop_isolation(false)]
    fn push_target_type_value(&self, v: &mut Vec<TargetsFields>)
        ensures
            models_of::<TargetsFields>(final(v)@) == models_of::<TargetsFields>(old(v)@) + seq![FieldModel::UInt { id: 0x68CA, idx: self.target_type_value.index, key: self.target_type_value.id, v: *self.target_type_value.v }],
    {
        let ghost prevv = v@;
        v.push(TargetsFields::TargetTypeValue(crate::dup_ebml_copy(&self.target_type_value)));
        proof {
            assert(models_of::<TargetsFields>(v@) =~= models_of::<TargetsFields>(prevv).push(v@.last().model()));
            assert(models_of::<TargetsFields>(prevv).push(v@.last().model()) =~= models_of::<TargetsFields>(prevv) + seq![FieldModel::UInt { id: 0x68CA, idx: self.target_type_value.index, key: self.target_type_value.id, v: *self.target_type_value.v }]);
        }
    }

    /// Append the `target_type` child values to a field run.
    #[verifier::loop_isolation(false)]
    fn push_target_type(&self, v: &mut Vec<TargetsFields>)
        ensures
            models_of::<TargetsFields>(final(v)@) == models_of::<TargetsFields>(old(v)@) + (match &self.target_type { Some(e) => seq![FieldModel::Text { id: 0x63CA, idx: e.index, key: e.id, s: (*e.v)@ }], None => Seq::empty() }),
    {
        match &self.target_type {
            Some(e) => {
                let ghost prevv = v@;
                v.push(TargetsFields::TargetType(crate::dup_ebml_string(e)));
                proof {
                    assert(models_of::<TargetsFields>(v@) =~= models_of::<TargetsFields>(prevv).push(v@.last().model()));
                    assert(models_of::<TargetsFields>(prevv).push(v@.last().model()) =~= models_of::<TargetsFields>(prevv) + (match &self.target_type { Some(e) => seq![FieldModel::Text { id: 0x63CA, idx: e.index, key: e.id, s: (*e.v)@ }], None => Seq::empty() }));
                }
            },
            None => {
                proof {
                    assert(models_of::<TargetsFields>(v@) =~= models_of::<TargetsFields>(v@) + (match &self.target_type { Some(e) => seq![FieldModel::Text { id: 0x63CA, idx: e.index, key: e.id, s: (*e.v)@ }], None => Seq::empty() }));
                }
            },
        }
    }

    /// Append the `tag_track_uid` child values to a field run.
    #[verifier::loop_isolation(false)]
    fn push_tag_track_uid(&self, v: &mut Vec<TargetsFields>)
        ensures
            models_of::<TargetsFields>(final(v)@) == models_of::<TargetsFields>(old(v)@) + targets_tag_track_uid_models(self.tag_track_uid@),
    {
        let ghost base = models_of::<TargetsFields>(v@);
        let mut i: usize = 0;
        while i < self.tag_track_uid.len()
            invariant
                i <= self.tag_track_uid@.len(),
                models_of::<TargetsFields>(v@) == base + targets_tag_track_uid_models(self.tag_track_uid@.take(i as int)),
            decreases self.tag_track_uid@.len() - i,
        {
            let e = &self.tag_track_uid[i];
            let ghost prevv = v@;
            v.push(TargetsFields::TagTrackUid(crate::dup_ebml_copy(e)));
            proof {
                assert(self.tag_track_uid@.take(i + 1) =~= self.tag_track_uid@.take(i as int).push(self.tag_track_uid@[i as int]));
                assert(models_of::<TargetsFields>(v@) =~= models_of::<TargetsFields>(prevv).push(v@.last().model()));
                assert(targets_tag_track_uid_models(self.tag_track_uid@.take(i + 1)) =~= targets_tag_track_uid_models(self.tag_track_uid@.take(i as int)).push(v@.last().model()));
                assert(base + targets_tag_track_uid_models(self.tag_track_uid@.take(i + 1)) =~= (base + targets_tag_track_uid_models(self.tag_track_uid@.take(i as int))).push(v@.last().model()));
            }
            i += 1;
        }
        proof {
            assert(self.tag_track_uid@.take(self.tag_track_uid@.len() as int) =~= self.tag_track_uid@);
        }
    }

    /// Append the `tag_edition_uid` child values to a field run.
    #[verifier::loop_isolation(false)]
    fn push_tag_edition_uid(&self, v: &mut Vec<TargetsFields>)
        ensures
            models_of::<TargetsFields>(final(v)@) == models_of::<TargetsFields>(old(v)@) + targets_tag_edition_uid_models(self.tag_edition_uid@),
    {
        let ghost base = models_of::<TargetsFields>(v@);
        let mut i: usize = 0;
        while i < self.tag_edition_uid.len()
            invariant
                i <= self.tag_edition_uid@.len(),
                models_of::<TargetsFields>(v@) == base + targets_tag_edition_uid_models(self.tag_edition_uid@.take(i as int)),
            decreases self.tag_edition_uid@.len() - i,
        {
            let e = &self.tag_edition_uid[i];
            let ghost prevv = v@;
            v.push(TargetsFields::TagEditionUid(crate::dup_ebml_copy(e)));
            proof {
                assert(self.tag_edition_uid@.take(i + 1) =~= self.tag_edition_uid@.take(i as int).push(self.tag_edition_uid@[i as int]));
                assert(models_of::<TargetsFields>(v@) =~= models_of::<TargetsFields>(prevv).push(v@.last().model()));
                assert(targets_tag_edition_uid_models(self.tag_edition_uid@.take(i + 1)) =~= targets_tag_edition_uid_models(self.tag_edition_uid@.take(i as int)).push(v@.last().model()));
                assert(base + targets_tag_edition_uid_models(self.tag_edition_uid@.take(i + 1)) =~= (base + targets_tag_edition_uid_models(self.tag_edition_uid@.take(i as int))).push(v@.last().model()));
            }
            i += 1;
        }
        proof {
            assert(self.tag_edition_uid@.take(self.tag_edition_uid@.len() as int) =~= self.tag_edition_uid@);
        }
    }

    /// Append the `tag_chapter_uid` child values to a field run.
    #[verifier::loop_isolation(false)]
    fn push_tag_chapter_uid(&self, v: &mut Vec<TargetsFields>)
        ensures
            models_of::<TargetsFields>(final(v)@) == models_of::<TargetsFields>(old(v)@) + targets_tag_chapter_uid_models(self.tag_chapter_uid@),
    {
        let ghost base = models_of::<TargetsFields>(v@);
        let mut i: usize = 0;
        while i < self.tag_chapter_uid.len()
            invariant
                i <= self.tag_chapter_uid@.len(),
                models_of::<TargetsFields>(v@) == base + targets_tag_chapter_uid_models(self.tag_chapter_uid@.take(i as int)),
            decreases self.tag_chapter_uid@.len() - i,
        {
            let e = &self.tag_chapter_uid[i];
            let ghost prevv = v@;
            v.push(TargetsFields::TagChapterUid(crate::dup_ebml_copy(e)));
            proof {
                assert(self.tag_chapter_uid@.take(i + 1) =~= self.tag_chapter_uid@.take(i as int).push(self.tag_chapter_uid@[i as int]));
                assert(models_of::<TargetsFields>(v@) =~= models_of::<TargetsFields>(prevv).push(v@.last().model()));
                assert(targets_tag_chapter_uid_models(self.tag_chapter_uid@.take(i + 1)) =~= targets_tag_chapter_uid_models(self.tag_chapter_uid@.take(i as int)).push(v@.last().model()));
                assert(base + targets_tag_chapter_uid_models(self.tag_chapter_uid@.take(i + 1)) =~= (base + targets_tag_chapter_uid_models(self.tag_chapter_uid@.take(i as int))).push(v@.last().model()));
            }
            i += 1;
        }
        proof {
            assert(self.tag_chapter_uid@.take(self.tag_chapter_uid@.len() as int) =~= self.tag_chapter_uid@);
        }
    }

    /// Append the `tag_attachment_uid` child values to a field run.
    #[verifier::loop_isolation(false)]
    fn push_tag_attachment_uid(&self, v: &mut Vec<TargetsFields>)
        ensures
            models_of::<TargetsFields>(final(v)@) == models_of::<TargetsFields>(old(v)@) + targets_tag_attachment_uid_models(self.tag_attachment_uid@),
    {
        let ghost base = models_of::<TargetsFields>(v@);
        let mut i: usize = 0;
        while i < self.tag_attachment_uid.len()
            invariant
                i <= self.tag_attachment_uid@.len(),
                models_of::<TargetsFields>(v@) == base + targets_tag_attachment_uid_models(self.tag_attachment_uid@.take(i as int)),
            decreases self.tag_attachment_uid@.len() - i,
        {
            let e = &self.tag_attachment_uid[i];
            let ghost prevv = v@;
            v.push(TargetsFields::TagAttachmentUid(crate::dup_ebml_copy(e)));
            proof {
                assert(self.tag_attachment_uid@.take(i + 1) =~= self.tag_attachment_uid@.take(i as int).push(self.tag_attachment_uid@[i as int]));
                assert(models_of::<TargetsFields>(v@) =~= models_of::<TargetsFields>(prevv).push(v@.last().model()));
                assert(targets_tag_attachment_uid_models(self.tag_attachment_uid@.take(i + 1)) =~= targets_tag_attachment_uid_models(self.tag_attachment_uid@.take(i as int)).push(v@.last().model()));
                assert(base + targets_tag_attachment_uid_models(self.tag_attachment_uid@.take(i + 1)) =~= (base + targets_tag_attachment_uid_models(self.tag_attachment_uid@.take(i as int))).push(v@.last().model()));
            }
            i += 1;
        }
        proof {
            assert(self.tag_attachment_uid@.take(self.tag_attachment_uid@.len() as int) =~= self.tag_attachment_uid@);
        }
    }

    /// The present children, each paired with its ID, in emission order.
    #[verifier::rlimit(100)]
    #[verifier::spinoff_prover]
    pub fn elements(&self) -> (r: Vec<TargetsFields>)
        ensures
            models_of::<TargetsFields>(r@) == self.model(),
    {
        let mut v: Vec<TargetsFields> = Vec::new();
        proof {
            assert(models_of::<TargetsFields>(v@) =~= Seq::<FieldModel>::empty());
        }
        self.push_target_type_value(&mut v);
        self.push_target_type(&mut v);
        self.push_tag_track_uid(&mut v);
        self.push_tag_edition_uid(&mut v);
        self.push_tag_chapter_uid(&mut v);
        self.push_tag_attachment_uid(&mut v);
        proof {
            reveal(Targets::raw_model);
            reveal(Targets::model);
            assert(Seq::<FieldModel>::empty() + seq![FieldModel::UInt { id: 0x68CA, idx: self.target_type_value.index, key: self.target_type_value.id, v: *self.target_type_value.v }] =~= seq![FieldModel::UInt { id: 0x68CA, idx: self.target_type_value.index, key: self.target_type_value.id, v: *self.target_type_value.v }]);
            assert(models_of::<TargetsFields>(v@) == self.raw_model());
        }
        sort_fields(v)
    }

    /// A deep copy of the `target_type_value` slot.
    #[verifier::loop_isolation(false)]
    fn dup_target_type_value(&self) -> (r: Ebml<u64>)
        ensures
            seq![FieldModel::UInt { id: 0x68CA, idx: r.index, key: r.id, v: *r.v }] == seq![FieldModel::UInt { id: 0x68CA, idx: self.target_type_value.index, key: self.target_type_value.id, v: *self.target_type_value.v }],
    {
        crate::dup_ebml_copy(&self.target_type_value)
    }

    /// A deep copy of the `target_type` slot.
    #[verifier::loop_isolation(false)]
    fn dup_target_type(&self) -> (r: Option<Ebml<String>>)
        ensures
            (match &r { Some(e) => seq![FieldModel::Text { id: 0x63CA, idx: e.index, key: e.id, s: (*e.v)@ }], None => Seq::empty() }) == (match &self.target_type { Some(e) => seq![FieldModel::Text { id: 0x63CA, idx: e.index, key: e.id, s: (*e.v)@ }], None => Seq::empty() }),
    {
        match &self.target_type {
            Some(e) => Some(crate::dup_ebml_string(e)),
            None => None,
        }
    }

    /// A deep copy of the `tag_track_uid` slot.
    #[verifier::loop_isolation(false)]
    fn dup_tag_track_uid(&self) -> (r: Vec<Ebml<u64>>)
        ensures
            targets_tag_track_uid_models(r@) == targets_tag_track_uid_models(self.tag_track_uid@),
    {
        let mut out: Vec<Ebml<u64>> = Vec::new();
        let mut i: usize = 0;
        while i < self.tag_track_uid.len()
            invariant
                i <= self.tag_track_uid@.len(),
                targets_tag_track_uid_models(out@) == targets_tag_track_uid_models(self.tag_track_uid@.take(i as int)),
            decreases self.tag_track_uid@.len() - i,
        {
            let e = &self.tag_track_uid[i];
            let ghost prevo = out@;
            out.push(crate::dup_ebml_copy(e));
            proof {
                assert(self.tag_track_uid@.take(i + 1) =~= self.tag_track_uid@.take(i as int).push(self.tag_track_uid@[i as int]));
                assert(out@.drop_last() =~= prevo);
                assert(self.tag_track_uid@.take(i + 1).drop_last() =~= self.tag_track_uid@.take(i as int));
                assert(FieldModel::UInt { id: 0x63C5, idx: (out@.last()).index, key: (out@.last()).id, v: *(out@.last()).v } == FieldModel::UInt { id: 0x63C5, idx: (self.tag_track_uid@[i as int]).index, key: (self.tag_track_uid@[i as int]).id, v: *(self.tag_track_uid@[i as int]).v });
                assert(targets_tag_track_uid_models(out@) =~= targets_tag_track_uid_models(prevo).push(FieldModel::UInt { id: 0x63C5, idx: (out@.last()).index, key: (out@.last()).id, v: *(out@.last()).v }));
                assert(targets_tag_track_uid_models(self.tag_track_uid@.take(i + 1)) =~= targets_tag_track_uid_models(self.tag_track_uid@.take(i as int)).push(FieldModel::UInt { id: 0x63C5, idx: (self.tag_track_uid@[i as int]).index, key: (self.tag_track_uid@[i as int]).id, v: *(self.tag_track_uid@[i as int]).v }));
            }
            i += 1;
        }
        proof {
            assert(self.tag_track_uid@.take(self.tag_track_uid@.len() as int) =~= self.tag_track_uid@);
        }
        out
    }

    /// A deep copy of the `tag_edition_uid` slot.
    #[verifier::loop_isolation(false)]
    fn dup_tag_edition_uid(&self) -> (r: Vec<Ebml<u64>>)
        ensures
            targets_tag_edition_uid_models(r@) == targets_tag_edition_uid_models(self.tag_edition_uid@),
    {
        let mut out: Vec<Ebml<u64>> = Vec::new();
        let mut i: usize = 0;
        while i < self.tag_edition_uid.len()
            invariant
                i <= self.tag_edition_uid@.len(),
                targets_tag_edition_uid_models(out@) == targets_tag_edition_uid_models(self.tag_edition_uid@.take(i as int)),
            decreases self.tag_edition_uid@.len() - i,
        {
            let e = &self.tag_edition_uid[i];
            let ghost prevo = out@;
            out.push(crate::dup_ebml_copy(e));
            proof {
                assert(self.tag_edition_uid@.take(i + 1) =~= self.tag_edition_uid@.take(i as int).push(self.tag_edition_uid@[i as int]));
                assert(out@.drop_last() =~= prevo);
                assert(self.tag_edition_uid@.take(i + 1).drop_last() =~= self.tag_edition_uid@.take(i as int));
                assert(FieldModel::UInt { id: 0x63C9, idx: (out@.last()).index, key: (out@.last()).id, v: *(out@.last()).v } == FieldModel::UInt { id: 0x63C9, idx: (self.tag_edition_uid@[i as int]).index, key: (self.tag_edition_uid@[i as int]).id, v: *(self.tag_edition_uid@[i as int]).v });
                assert(targets_tag_edition_uid_models(out@) =~= targets_tag_edition_uid_models(prevo).push(FieldModel::UInt { id: 0x63C9, idx: (out@.last()).index, key: (out@.last()).id, v: *(out@.last()).v }));
                assert(targets_tag_edition_uid_models(self.tag_edition_uid@.take(i + 1)) =~= targets_tag_edition_uid_models(self.tag_edition_uid@.take(i as int)).push(FieldModel::UInt { id: 0x63C9, idx: (self.tag_edition_uid@[i as int]).index, key: (self.tag_edition_uid@[i as int]).id, v: *(self.tag_edition_uid@[i as int]).v }));
            }
            i += 1;
        }
        proof {
            assert(self.tag_edition_uid@.take(self.tag_edition_uid@.len() as int) =~= self.tag_edition_uid@);
        }
        out
    }

    /// A deep copy of the `tag_chapter_uid` slot.
    #[verifier::loop_isolation(false)]
    fn dup_tag_chapter_uid(&self) -> (r: Vec<Ebml<u64>>)
        ensures
            targets_tag_chapter_uid_models(r@) == targets_tag_chapter_uid_models(self.tag_chapter_uid@),
    {
        let mut out: Vec<Ebml<u64>> = Vec::new();
        let mut i: usize = 0;
        while i < self.tag_chapter_uid.len()
            invariant
                i <= self.tag_chapter_uid@.len(),
                targets_tag_chapter_uid_models(out@) == targets_tag_chapter_uid_models(self.tag_chapter_uid@.take(i as int)),
            decreases self.tag_chapter_uid@.len() - i,
        {
            let e = &self.tag_chapter_uid[i];
            let ghost prevo = out@;
            out.push(crate::dup_ebml_copy(e));
            proof {
                assert(self.tag_chapter_uid@.take(i + 1) =~= self.tag_chapter_uid@.take(i as int).push(self.tag_chapter_uid@[i as int]));
                assert(out@.drop_last() =~= prevo);
                assert(self.tag_chapter_uid@.take(i + 1).drop_last() =~= self.tag_chapter_uid@.take(i as int));
                assert(FieldModel::UInt { id: 0x63C4, idx: (out@.last()).index, key: (out@.last()).id, v: *(out@.last()).v } == FieldModel::UInt { id: 0x63C4, idx: (self.tag_chapter_uid@[i as int]).index, key: (self.tag_chapter_uid@[i as int]).id, v: *(self.tag_chapter_uid@[i as int]).v });
                assert(targets_tag_chapter_uid_models(out@) =~= targets_tag_chapter_uid_models(prevo).push(FieldModel::UInt { id: 0x63C4, idx: (out@.last()).index, key: (out@.last()).id, v: *(out@.last()).v }));
                assert(targets_tag_chapter_uid_models(self.tag_chapter_uid@.take(i + 1)) =~= targets_tag_chapter_uid_models(self.tag_chapter_uid@.take(i as int)).push(FieldModel::UInt { id: 0x63C4, idx: (self.tag_chapter_uid@[i as int]).index, key: (self.tag_chapter_uid@[i as int]).id, v: *(self.tag_chapter_uid@[i as int]).v }));
            }
            i += 1;
        }
        proof {
            assert(self.tag_chapter_uid@.take(self.tag_chapter_uid@.len() as int) =~= self.tag_chapter_uid@);
        }
        out
    }

    /// A deep copy of the `tag_attachment_uid` slot.
    #[verifier::loop_isolation(false)]
    fn dup_tag_attachment_uid(&self) -> (r: Vec<Ebml<u64>>)
        ensures
            targets_tag_attachment_uid_models(r@) == targets_tag_attachment_uid_models(self.tag_attachment_uid@),
    {
        let mut out: Vec<Ebml<u64>> = Vec::new();
        let mut i: usize = 0;
        while i < self.tag_attachment_uid.len()
            invariant
                i <= self.tag_attachment_uid@.len(),
                targets_tag_attachment_uid_models(out@) == targets_tag_attachment_uid_models(self.tag_attachment_uid@.take(i as int)),
            decreases self.tag_attachment_uid@.len() - i,
        {
            let e = &self.tag_attachment_uid[i];
            let ghost prevo = out@;
            out.push(crate::dup_ebml_copy(e));
            proof {
                assert(self.tag_attachment_uid@.take(i + 1) =~= self.tag_attachment_uid@.take(i as int).push(self.tag_attachment_uid@[i as int]));
                assert(out@.drop_last() =~= prevo);
                assert(self.tag_attachment_uid@.take(i + 1).drop_last() =~= self.tag_attachment_uid@.take(i as int));
                assert(FieldModel::UInt { id: 0x63C6, idx: (out@.last()).index, key: (out@.last()).id, v: *(out@.last()).v } == FieldModel::UInt { id: 0x63C6, idx: (self.tag_attachment_uid@[i as int]).index, key: (self.tag_attachment_uid@[i as int]).id, v: *(self.tag_attachment_uid@[i as int]).v });
                assert(targets_tag_attachment_uid_models(out@) =~= targets_tag_attachment_uid_models(prevo).push(FieldModel::UInt { id: 0x63C6, idx: (out@.last()).index, key: (out@.last()).id, v: *(out@.last()).v }));
                assert(targets_tag_attachment_uid_models(self.tag_attachment_uid@.take(i + 1)) =~= targets_tag_attachment_uid_models(self.tag_attachment_uid@.take(i as int)).push(FieldModel::UInt { id: 0x63C6, idx: (self.tag_attachment_uid@[i as int]).index, key: (self.tag_attachment_uid@[i as int]).id, v: *(self.tag_attachment_uid@[i as int]).v }));
            }
            i += 1;
        }
        proof {
            assert(self.tag_attachment_uid@.take(self.tag_attachment_uid@.len() as int) =~= self.tag_attachment_uid@);
        }
        out
    }

    /// A deep copy with the same children, positions, and keys.
    #[verifier::rlimit(100)]
    #[verifier::spinoff_prover]
    pub fn duplicate(&self) -> (r: Self)
        ensures
            r.raw_model() == self.raw_model(),
            r.size == self.size,
    {
        let r = Targets {
            size: self.size,
            target_type_value: self.dup_target_type_value(),
            target_type: self.dup_target_type(),
            tag_track_uid: self.dup_tag_track_uid(),
            tag_edition_uid: self.dup_tag_edition_uid(),
            tag_chapter_uid: self.dup_tag_chapter_uid(),
            tag_attachment_uid: self.dup_tag_attachment_uid(),
        };
        proof {
            reveal(Targets::raw_model);
            assert(r.raw_model() == self.raw_model());
        }
        r
    }
}

impl Targets {
    /// Serialise the whole element: body to a scratch buffer first, then
    /// the header with the now-known length, then the body.
    pub fn write_blocking(&self, w: &mut Vec<u8>) -> (r: Result<usize, MatroskaError>)
        ensures
            r is Ok <==> body_ok_rec(self.model()) && cat_bytes(self.model()).len() < 0xFFFFFFFFFFFFFF,
            r is Ok ==> final(w)@ == old(w)@ + node_frame_bytes(0x63C0, cat_bytes(self.model()))
                && r->Ok_0 == node_frame_bytes(0x63C0, cat_bytes(self.model())).len(),
            r is Err ==> final(w)@ == old(w)@ && r->Err_0 is InvalidVarIntMoreThanVintMax,
    {
        let mut buf: Vec<u8> = Vec::new();
        match self.write_body_blocking(&mut buf) {
            Ok(_) => {},
            Err(e) => {
                return Err(e);
            },
        }
        let start = w.len();
        match crate::io::write_element_id_size(w, 0x63C0, buf.len() as u64) {
            Ok(_) => {},
            Err(e) => {
                return Err(e);
            },
        }
        w.append(&mut buf);
        Ok(w.len() - start)
    }

    /// Write this element's header with the given body size.
    pub fn write_header_blocking(&self, w: &mut Vec<u8>, size: u64) -> (r: Result<usize, MatroskaError>)
        ensures
            r is Ok <==> crate::io::size_encodable(size),
            r is Ok ==> final(w)@ == old(w)@ + crate::io::header_bytes(0x63C0, size)
                && r->Ok_0 == crate::io::header_bytes(0x63C0, size).len(),
            r is Err ==> final(w)@ == old(w)@ && r->Err_0 is InvalidVarIntMoreThanVintMax,
    {
        crate::io::write_element_id_size(w, 0x63C0, size)
    }

    /// Write the body: every present child, in emission order.
    #[verifier::loop_isolation(false)]
    #[verifier::rlimit(60)]
    #[verifier::spinoff_prover]
    pub fn write_body_blocking(&self, w: &mut Vec<u8>) -> (r: Result<usize, MatroskaError>)
        ensures
            r is Ok <==> body_ok_rec(self.model()),
            r is Ok ==> final(w)@ == old(w)@ + cat_bytes(self.model())
                && r->Ok_0 == cat_bytes(self.model()).len(),
            r is Err ==> r->Err_0 is InvalidVarIntMoreThanVintMax,
    {
        let fields = self.elements();
        let start = w.len();
        let ghost ms = self.model();
        let mut i: usize = 0;
        while i < fields.len()
            invariant
                i <= fields@.len(),
                models_of::<TargetsFields>(fields@) == ms,
                w@ == old(w)@ + cat_bytes(ms.take(i as int)),
                body_ok_rec(ms.take(i as int)),
            decreases fields@.len() - i,
        {
            proof {
                assert(models_of::<TargetsFields>(fields@)[i as int] == ms[i as int]);
            }
            match fields[i].write_el(w) {
                Ok(_) => {},
                Err(e) => {
                    proof {
                        lemma_body_ok_forall(ms);
                    }
                    return Err(e);
                },
            }
            proof {
                assert(ms.take(i + 1) =~= ms.take(i as int).push(ms[i as int]));
                lemma_cat_snoc(ms.take(i as int), ms[i as int]);
            }
            i += 1;
        }
        proof {
            assert(ms.take(ms.len() as int) =~= ms);
            lemma_body_ok_forall(ms);
        }
        Ok(w.len() - start)
    }
}

/// One present child of a `Targets`, paired with its value.
#[derive(Debug)]
pub enum TargetsFields {
    TargetTypeValue(Ebml<u64>),
    TargetType(Ebml<String>),
    TagTrackUid(Ebml<u64>),
    TagEditionUid(Ebml<u64>),
    TagChapterUid(Ebml<u64>),
    TagAttachmentUid(Ebml<u64>),
}

impl TargetsFields {
    /// The child's element ID and its two ordering slots.
    #[verifier::rlimit(60)]
    #[verifier::spinoff_prover]
    pub fn index(&self) -> (r: (EbmlId, Option<u64>, u64))
        ensures
            r.0.spec_u64() == self.model().eid(),
            r.1 == self.model().idx(),
            r.2 == self.model().key(),
    {
        match self {
            Self::TargetTypeValue(val) => (EbmlId::TargetTypeValue, val.index, val.id),
            Self::TargetType(val) => (EbmlId::TargetType, val.index, val.id),
            Self::TagTrackUid(val) => (EbmlId::TagTrackUid, val.index, val.id),
            Self::TagEditionUid(val) => (EbmlId::TagEditionUid, val.index, val.id),
            Self::TagChapterUid(val) => (EbmlId::TagChapterUid, val.index, val.id),
            Self::TagAttachmentUid(val) => (EbmlId::TagAttachmentUid, val.index, val.id),
        }
    }

    /// Write this child's frame.
    #[verifier::rlimit(60)]
    #[verifier::spinoff_prover]
    pub fn write_el(&self, w: &mut Vec<u8>) -> (r: Result<usize, MatroskaError>)
        ensures
            r is Ok <==> el_ok(self.model()),
            r is Ok ==> final(w)@ == old(w)@ + el_bytes(self.model())
                && r->Ok_0 == el_bytes(self.model()).len(),
            r is Err ==> final(w)@ == old(w)@ && r->Err_0 is InvalidVarIntMoreThanVintMax,
    {
        match self {
            Self::TargetTypeValue(val) => crate::io::write_el_uint(w, 0x68CA, &*val.v),
            Self::TargetType(val) => crate::io::write_el_string(w, 0x63CA, (*val.v).as_str()),
            Self::TagTrackUid(val) => crate::io::write_el_uint(w, 0x63C5, &*val.v),
            Self::TagEditionUid(val) => crate::io::write_el_uint(w, 0x63C9, &*val.v),
            Self::TagChapterUid(val) => crate::io::write_el_uint(w, 0x63C4, &*val.v),
            Self::TagAttachmentUid(val) => crate::io::write_el_uint(w, 0x63C6, &*val.v),
        }
    }
}

impl EbmlField for TargetsFields {
    open spec fn model(&self) -> FieldModel {
        match self {
            Self::TargetTypeValue(e) => FieldModel::UInt { id: 0x68CA, idx: e.index, key: e.id, v: *e.v },
            Self::TargetType(e) => FieldModel::Text { id: 0x63CA, idx: e.index, key: e.id, s: (*e.v)@ },
            Self::TagTrackUid(e) => FieldModel::UInt { id: 0x63C5, idx: e.index, key: e.id, v: *e.v },
            Self::TagEditionUid(e) => FieldModel::UInt { id: 0x63C9, idx: e.index, key: e.id, v: *e.v },
            Self::TagChapterUid(e) => FieldModel::UInt { id: 0x63C4, idx: e.index, key: e.id, v: *e.v },
            Self::TagAttachmentUid(e) => FieldModel::UInt { id: 0x63C6, idx: e.index, key: e.id, v: *e.v },
        }
    }

    fn sort_key(&self) -> (r: (Option<u64>, u64)) {
        match self {
            Self::TargetTypeValue(e) => (e.index, e.id),
            Self::TargetType(e) => (e.index, e.id),
            Self::TagTrackUid(e) => (e.index, e.id),
            Self::TagEditionUid(e) => (e.index, e.id),
            Self::TagChapterUid(e) => (e.index, e.id),
            Self::TagAttachmentUid(e) => (e.index, e.id),
        }
    }
}

/// The `SimpleTag` structural element.
#[derive(Debug)]
pub struct SimpleTag {
    pub size: u64,
    pub tag_name: Ebml<String>,
    pub tag_language: Ebml<String>,
    pub tag_language_bcp_47: Option<Ebml<String>>,
    pub tag_default: Ebml<u64>,
    pub tag_default_bogus: Ebml<u64>,
    pub tag_string: Option<Ebml<String>>,
    pub tag_binary: Option<Ebml<Vec<u8>>>,
}

impl SimpleTag {
    /// The models of the children, in declaration order.
    #[verifier::opaque]
    pub open spec fn raw_model(self) -> Seq<FieldModel>
    {
        seq![FieldModel::Text { id: 0x45A3, idx: self.tag_name.index, key: self.tag_name.id, s: (*self.tag_name.v)@ }]
            + seq![FieldModel::Text { id: 0x447A, idx: self.tag_language.index, key: self.tag_language.id, s: (*self.tag_language.v)@ }]
            + (match self.tag_language_bcp_47 { Some(e) => seq![FieldModel::Text { id: 0x447B, idx: e.index, key: e.id, s: (*e.v)@ }], None => Seq::empty() })
            + seq![FieldModel::UInt { id: 0x4484, idx: self.tag_default.index, key: self.tag_default.id, v: *self.tag_default.v }]
            + seq![FieldModel::UInt { id: 0x44B4, idx: self.tag_default_bogus.index, key: self.tag_default_bogus.id, v: *self.tag_default_bogus.v }]
            + (match self.tag_string { Some(e) => seq![FieldModel::Text { id: 0x4487, idx: e.index, key: e.id, s: (*e.v)@ }], None => Seq::empty() })
            + (match self.tag_binary { Some(e) => seq![FieldModel::Bin { id: 0x4485, idx: e.index, key: e.id, b: (*e.v)@ }], None => Seq::empty() })
    }

    /// The children in emission order.
    #[verifier::opaque]
    pub open spec fn model(self) -> Seq<FieldModel>
    {
        sort_fields_spec(self.raw_model())
    }

    /// Append the `tag_name` child values to a field run.
    #[verifier::loop_isolation(false)]
    fn push_tag_name(&self, v: &mut Vec<SimpleTagFields>)
        ensures
            models_of::<SimpleTagFields>(final(v)@) == models_of::<SimpleTagFields>(old(v)@) + seq![FieldModel::Text { id: 0x45A3, idx: self.tag_name.index, key: self.tag_name.id, s: (*self.tag_name.v)@ }],
    {
        let ghost prevv = v@;
        v.push(SimpleTagFields::TagName(crate::dup_ebml_string(&self.tag_name)));
        proof {
            assert(models_of::<SimpleTagFields>(v@) =~= models_of::<SimpleTagFields>(prevv).push(v@.last().model()));
            assert(models_of::<SimpleTagFields>(prevv).push(v@.last().model()) =~= models_of::<SimpleTagFields>(prevv) + seq![FieldModel::Text { id: 0x45A3, idx: self.tag_name.index, key: self.tag_name.id, s: (*self.tag_name.v)@ }]);
        }
    }

    /// Append the `tag_language` child values to a field run.
    #[verifier::loop_isolation(false)]
    fn push_tag_language(&self, v: &mut Vec<SimpleTagFields>)
        ensures
            models_of::<SimpleTagFields>(final(v)@) == models_of::<SimpleTagFields>(old(v)@) + seq![FieldModel::Text { id: 0x447A, idx: self.tag_language.index, key: self.tag_language.id, s: (*self.tag_language.v)@ }],
    {
        let ghost prevv = v@;
        v.push(SimpleTagFields::TagLanguage(crate::dup_ebml_string(&self.tag_language)));
        proof {
            assert(models_of::<SimpleTagFields>(v@) =~= models_of::<SimpleTagFields>(prevv).push(v@.last().model()));
            assert(models_of::<SimpleTagFields>(prevv).push(v@.last().model()) =~= models_of::<SimpleTagFields>(prevv) + seq![FieldModel::Text { id: 0x447A, idx: self.tag_language.index, key: self.tag_language.id, s: (*self.tag_language.v)@ }]);
        }
    }

    /// Append the `tag_language_bcp_47` child values to a field run.
    #[verifier::loop_isolation(false)]
    fn push_tag_language_bcp_47(&self, v: &mut Vec<SimpleTagFields>)
        ensures
            models_of::<SimpleTagFields>(final(v)@) == models_of::<SimpleTagFields>(old(v)@) + (match &self.tag_language_bcp_47 { Some(e) => seq![FieldModel::Text { id: 0x447B, idx: e.index, key: e.id, s: (*e.v)@ }], None => Seq::empty() }),
    {
        match &self.tag_language_bcp_47 {
            Some(e) => {
                let ghost prevv = v@;
                v.push(SimpleTagFields::TagLanguageBcp47(crate::dup_ebml_string(e)));
                proof {
                    assert(models_of::<SimpleTagFields>(v@) =~= models_of::<SimpleTagFields>(prevv).push(v@.last().model()));
                    assert(models_of::<SimpleTagFields>(prevv).push(v@.last().model()) =~= models_of::<SimpleTagFields>(prevv) + (match &self.tag_language_bcp_47 { Some(e) => seq![FieldModel::Text { id: 0x447B, idx: e.index, key: e.id, s: (*e.v)@ }], None => Seq::empty() }));
                }
            },
            None => {
                proof {
                    assert(models_of::<SimpleTagFields>(v@) =~= models_of::<SimpleTagFields>(v@) + (match &self.tag_language_bcp_47 { Some(e) => seq![FieldModel::Text { id: 0x447B, idx: e.index, key: e.id, s: (*e.v)@ }], None => Seq::empty() }));
                }
            },
        }
    }

    /// Append the `tag_default` child values to a field run.
    #[verifier::loop_isolation(false)]
    fn push_tag_default(&self, v: &mut Vec<SimpleTagFields>)
        ensures
            models_of::<SimpleTagFields>(final(v)@) == models_of::<SimpleTagFields>(old(v)@) + seq![FieldModel::UInt { id: 0x4484, idx: self.tag_default.index, key: self.tag_default.id, v: *self.tag_default.v }],
    {
        let ghost prevv = v@;
        v.push(SimpleTagFields::TagDefault(crate::dup_ebml_copy(&self.tag_default)));
        proof {
            assert(models_of::<SimpleTagFields>(v@) =~= models_of::<SimpleTagFields>(prevv).push(v@.last().model()));
            assert(models_of::<SimpleTagFields>(prevv).push(v@.last().model()) =~= models_of::<SimpleTagFields>(prevv) + seq![FieldModel::UInt { id: 0x4484, idx: self.tag_default.index, key: self.tag_default.id, v: *self.tag_default.v }]);
        }
    }

    /// Append the `tag_default_bogus` child values to a field run.
    #[verifier::loop_isolation(false)]
    fn push_tag_default_bogus(&self, v: &mut Vec<SimpleTagFields>)
        ensures
            models_of::<SimpleTagFields>(final(v)@) == models_of::<SimpleTagFields>(old(v)@) + seq![FieldModel::UInt { id: 0x44B4, idx: self.tag_default_bogus.index, key: self.tag_default_bogus.id, v: *self.tag_default_bogus.v }],
    {
        let ghost prevv = v@;
        v.push(SimpleTagFields::TagDefaultBogus(crate::dup_ebml_copy(&self.tag_default_bogus)));
        proof {
            assert(models_of::<SimpleTagFields>(v@) =~= models_of::<SimpleTagFields>(prevv).push(v@.last().model()));
            assert(models_of::<SimpleTagFields>(prevv).push(v@.last().model()) =~= models_of::<SimpleTagFields>(prevv) + seq![FieldModel::UInt { id: 0x44B4, idx: self.tag_default_bogus.index, key: self.tag_default_bogus.id, v: *self.tag_default_bogus.v }]);
        }
    }

    /// Append the `tag_string` child values to a field run.
    #[verifier::loop_isolation(false)]
    fn push_tag_string(&self, v: &mut Vec<SimpleTagFields>)
        ensures
            models_of::<SimpleTagFields>(final(v)@) == models_of::<SimpleTagFields>(old(v)@) + (match &self.tag_string { Some(e) => seq![FieldModel::Text { id: 0x4487, idx: e.index, key: e.id, s: (*e.v)@ }], None => Seq::empty() }),
    {
        match &self.tag_string {
            Some(e) => {
                let ghost prevv = v@;
                v.push(SimpleTagFields::TagString(crate::dup_ebml_string(e)));
                proof {
                    assert(models_of::<SimpleTagFields>(v@) =~= models_of::<SimpleTagFields>(prevv).push(v@.last().model()));
                    assert(models_of::<SimpleTagFields>(prevv).push(v@.last().model()) =~= models_of::<SimpleTagFields>(prevv) + (match &self.tag_string { Some(e) => seq![FieldModel::Text { id: 0x4487, idx: e.index, key: e.id, s: (*e.v)@ }], None => Seq::empty() }));
                }
            },
            None => {
                proof {
                    assert(models_of::<SimpleTagFields>(v@) =~= models_of::<SimpleTagFields>(v@) + (match &self.tag_string { Some(e) => seq![FieldModel::Text { id: 0x4487, idx: e.index, key: e.id, s: (*e.v)@ }], None => Seq::empty() }));
                }
            },
        }
    }

    /// Append the `tag_binary` child values to a field run.
    #[verifier::loop_isolation(false)]
    fn push_tag_binary(&self, v: &mut Vec<SimpleTagFields>)
        ensures
            models_of::<SimpleTagFields>(final(v)@) == models_of::<SimpleTagFields>(old(v)@) + (match &self.tag_binary { Some(e) => seq![FieldModel::Bin { id: 0x4485, idx: e.index, key: e.id, b: (*e.v)@ }], None => Seq::empty() }),
    {
        match &self.tag_binary {
            Some(e) => {
                let ghost prevv = v@;
                v.push(SimpleTagFields::TagBinary(crate::dup_ebml_bytes(e)));
                proof {
                    assert(models_of::<SimpleTagFields>(v@) =~= models_of::<SimpleTagFields>(prevv).push(v@.last().model()));
                    assert(models_of::<SimpleTagFields>(prevv).push(v@.last().model()) =~= models_of::<SimpleTagFields>(prevv) + (match &self.tag_binary { Some(e) => seq![FieldModel::Bin { id: 0x4485, idx: e.index, key: e.id, b: (*e.v)@ }], None => Seq::empty() }));
                }
            },
            None => {
                proof {
                    assert(models_of::<SimpleTagFields>(v@) =~= models_of::<SimpleTagFields>(v@) + (match &self.tag_binary { Some(e) => seq![FieldModel::Bin { id: 0x4485, idx: e.index, key: e.id, b: (*e.v)@ }], None => Seq::empty() }));
                }
            },
        }
    }

    /// The present children, each paired with its ID, in emission order.
    #[verifier::rlimit(100)]
    #[verifier::spinoff_prover]
    pub fn elements(&self) -> (r: Vec<SimpleTagFields>)
        ensures
            models_of::<SimpleTagFields>(r@) == self.model(),
    {
        let mut v: Vec<SimpleTagFields> = Vec::new();
        proof {
            assert(models_of::<SimpleTagFields>(v@) =~= Seq::<FieldModel>::empty());
        }
        self.push_tag_name(&mut v);
        self.push_tag_language(&mut v);
        self.push_tag_language_bcp_47(&mut v);
        self.push_tag_default(&mut v);
        self.push_tag_default_bogus(&mut v);
        self.push_tag_string(&mut v);
        self.push_tag_binary(&mut v);
        proof {
            reveal(SimpleTag::raw_model);
            reveal(SimpleTag::model);
            assert(Seq::<FieldModel>::empty() + seq![FieldModel::Text { id: 0x45A3, idx: self.tag_name.index, key: self.tag_name.id, s: (*self.tag_name.v)@ }] =~= seq![FieldModel::Text { id: 0x45A3, idx: self.tag_name.index, key: self.tag_name.id, s: (*self.tag_name.v)@ }]);
            assert(models_of::<SimpleTagFields>(v@) == self.raw_model());
        }
        sort_fields(v)
    }

    /// A deep copy of the `tag_name` slot.
    #[verifier::loop_isolation(false)]
    fn dup_tag_name(&self) -> (r: Ebml<String>)
        ensures
            seq![FieldModel::Text { id: 0x45A3, idx: r.index, key: r.id, s: (*r.v)@ }] == seq![FieldModel::Text { id: 0x45A3, idx: self.tag_name.index, key: self.tag_name.id, s: (*self.tag_name.v)@ }],
    {
        crate::dup_ebml_string(&self.tag_name)
    }

    /// A deep copy of the `tag_language` slot.
    #[verifier::loop_isolation(false)]
    fn dup_tag_language(&self) -> (r: Ebml<String>)
        ensures
            seq![FieldModel::Text { id: 0x447A, idx: r.index, key: r.id, s: (*r.v)@ }] == seq![FieldModel::Text { id: 0x447A, idx: self.tag_language.index, key: self.tag_language.id, s: (*self.tag_language.v)@ }],
    {
        crate::dup_ebml_string(&self.tag_language)
    }

    /// A deep copy of the `tag_language_bcp_47` slot.
    #[verifier::loop_isolation(false)]
    fn dup_tag_language_bcp_47(&self) -> (r: Option<Ebml<String>>)
        ensures
            (match &r { Some(e) => seq![FieldModel::Text { id: 0x447B, idx: e.index, key: e.id, s: (*e.v)@ }], None => Seq::empty() }) == (match &self.tag_language_bcp_47 { Some(e) => seq![FieldModel::Text { id: 0x447B, idx: e.index, key: e.id, s: (*e.v)@ }], None => Seq::empty() }),
    {
        match &self.tag_language_bcp_47 {
            Some(e) => Some(crate::dup_ebml_string(e)),
            None => None,
        }
    }

    /// A deep copy of the `tag_default` slot.
    #[verifier::loop_isolation(false)]
    fn dup_tag_default(&self) -> (r: Ebml<u64>)
        ensures
            seq![FieldModel::UInt { id: 0x4484, idx: r.index, key: r.id, v: *r.v }] == seq![FieldModel::UInt { id: 0x4484, idx: self.tag_default.index, key: self.tag_default.id, v: *self.tag_default.v }],
    {
        crate::dup_ebml_copy(&self.tag_default)
    }

    /// A deep copy of the `tag_default_bogus` slot.
    #[verifier::loop_isolation(false)]
    fn dup_tag_default_bogus(&self) -> (r: Ebml<u64>)
        ensures
            seq![FieldModel::UInt { id: 0x44B4, idx: r.index, key: r.id, v: *r.v }] == seq![FieldModel::UInt { id: 0x44B4, idx: self.tag_default_bogus.index, key: self.tag_default_bogus.id, v: *self.tag_default_bogus.v }],
    {
        crate::dup_ebml_copy(&self.tag_default_bogus)
    }

    /// A deep copy of the `tag_string` slot.
    #[verifier::loop_isolation(false)]
    fn dup_tag_string(&self) -> (r: Option<Ebml<String>>)
        ensures
            (match &r { Some(e) => seq![FieldModel::Text { id: 0x4487, idx: e.index, key: e.id, s: (*e.v)@ }], None => Seq::empty() }) == (match &self.tag_string { Some(e) => seq![FieldModel::Text { id: 0x4487, idx: e.index, key: e.id, s: (*e.v)@ }], None => Seq::empty() }),
    {
        match &self.tag_string {
            Some(e) => Some(crate::dup_ebml_string(e)),
            None => None,
        }
    }

    /// A deep copy of the `tag_binary` slot.
    #[verifier::loop_isolation(false)]
    fn dup_tag_binary(&self) -> (r: Option<Ebml<Vec<u8>>>)
        ensures
            (match &r { Some(e) => seq![FieldModel::Bin { id: 0x4485, idx: e.index, key: e.id, b: (*e.v)@ }], None => Seq::empty() }) == (match &self.tag_binary { Some(e) => seq![FieldModel::Bin { id: 0x4485, idx: e.index, key: e.id, b: (*e.v)@ }], None => Seq::empty() }),
    {
        match &self.tag_binary {
            Some(e) => Some(crate::dup_ebml_bytes(e)),
            None => None,
        }
    }

    /// A deep copy with the same children, positions, and keys.
    #[verifier::rlimit(100)]
    #[verifier::spinoff_prover]
    pub fn duplicate(&self) -> (r: Self)
        ensures
            r.raw_model() == self.raw_model(),
            r.size == self.size,
    {
        let r = SimpleTag {
            size: self.size,
            tag_name: self.dup_tag_name(),
            tag_language: self.dup_tag_language(),
            tag_language_bcp_47: self.dup_tag_language_bcp_47(),
            tag_default: self.dup_tag_default(),
            tag_default_bogus: self.dup_tag_default_bogus(),
            tag_string: self.dup_tag_string(),
            tag_binary: self.dup_tag_binary(),
        };
        proof {
            reveal(SimpleTag::raw_model);
            assert(r.raw_model() == self.raw_model());
        }
        r
    }
}

impl SimpleTag {
    /// Serialise the whole element: body to a scratch buffer first, then
    /// the header with the now-known length, then the body.
    pub fn write_blocking(&self, w: &mut Vec<u8>) -> (r: Result<usize, MatroskaError>)
        ensures
            r is Ok <==> body_ok_rec(self.model()) && cat_bytes(self.model()).len() < 0xFFFFFFFFFFFFFF,
            r is Ok ==> final(w)@ == old(w)@ + node_frame_bytes(0x67C8, cat_bytes(self.model()))
                && r->Ok_0 == node_frame_bytes(0x67C8, cat_bytes(self.model())).len(),
            r is Err ==> final(w)@ == old(w)@ && r->Err_0 is InvalidVarIntMoreThanVintMax,
    {
        let mut buf: Vec<u8> = Vec::new();
        match self.write_body_blocking(&mut buf) {
            Ok(_) => {},
            Err(e) => {
                return Err(e);
            },
        }
        let start = w.len();
        match crate::io::write_element_id_size(w, 0x67C8, buf.len() as u64) {
            Ok(_) => {},
            Err(e) => {
                return Err(e);
            },
        }
        w.append(&mut buf);
        Ok(w.len() - start)
    }

    /// Write this element's header with the given body size.
    pub fn write_header_blocking(&self, w: &mut Vec<u8>, size: u64) -> (r: Result<usize, MatroskaError>)
        ensures
            r is Ok <==> crate::io::size_encodable(size),
            r is Ok ==> final(w)@ == old(w)@ + crate::io::header_bytes(0x67C8, size)
                && r->Ok_0 == crate::io::header_bytes(0x67C8, size).len(),
            r is Err ==> final(w)@ == old(w)@ && r->Err_0 is InvalidVarIntMoreThanVintMax,
    {
        crate::io::write_element_id_size(w, 0x67C8, size)
    }

    /// Write the body: every present child, in emission order.
    #[verifier::loop_isolation(false)]
    #[verifier::rlimit(60)]
    #[verifier::spinoff_prover]
    pub fn write_body_blocking(&self, w: &mut Vec<u8>) -> (r: Result<usize, MatroskaError>)
        ensures
            r is Ok <==> body_ok_rec(self.model()),
            r is Ok ==> final(w)@ == old(w)@ + cat_bytes(self.model())
                && r->Ok_0 == cat_bytes(self.model()).len(),
            r is Err ==> r->Err_0 is InvalidVarIntMoreThanVintMax,
    {
        let fields = self.elements();
        let start = w.len();
        let ghost ms = self.model();
        let mut i: usize = 0;
        while i < fields.len()
            invariant
                i <= fields@.len(),
                models_of::<SimpleTagFields>(fields@) == ms,
                w@ == old(w)@ + cat_bytes(ms.take(i as int)),
                body_ok_rec(ms.take(i as int)),
            decreases fields@.len() - i,
        {
            proof {
                assert(models_of::<SimpleTagFields>(fields@)[i as int] == ms[i as int]);
            }
            match fields[i].write_el(w) {
                Ok(_) => {},
                Err(e) => {
                    proof {
                        lemma_body_ok_forall(ms);
                    }
                    return Err(e);
                },
            }
            proof {
                assert(ms.take(i + 1) =~= ms.take(i as int).push(ms[i as int]));
                lemma_cat_snoc(ms.take(i as int), ms[i as int]);
            }
            i += 1;
        }
        proof {
            assert(ms.take(ms.len() as int) =~= ms);
            lemma_body_ok_forall(ms);
        }
        Ok(w.len() - start)
    }
}

/// One present child of a `SimpleTag`, paired with its value.
#[derive(Debug)]
pub enum SimpleTagFields {
    TagName(Ebml<String>),
    TagLanguage(Ebml<String>),
    TagLanguageBcp47(Ebml<String>),
    TagDefault(Ebml<u64>),
    TagDefaultBogus(Ebml<u64>),
    TagString(Ebml<String>),
    TagBinary(Ebml<Vec<u8>>),
}

impl SimpleTagFields {
    /// The child's element ID and its two ordering slots.
    #[verifier::rlimit(60)]
    #[verifier::spinoff_prover]
    pub fn index(&self) -> (r: (EbmlId, Option<u64>, u64))
        ensures
            r.0.spec_u64() == self.model().eid(),
            r.1 == self.model().idx(),
            r.2 == self.model().key(),
    {
        match self {
            Self::TagName(val) => (EbmlId::TagName, val.index, val.id),
            Self::TagLanguage(val) => (EbmlId::TagLanguage, val.index, val.id),
            Self::TagLanguageBcp47(val) => (EbmlId::TagLanguageBcp47, val.index, val.id),
            Self::TagDefault(val) => (EbmlId::TagDefault, val.index, val.id),
            Self::TagDefaultBogus(val) => (EbmlId::TagDefaultBogus, val.index, val.id),
            Self::TagString(val) => (EbmlId::TagString, val.index, val.id),
            Self::TagBinary(val) => (EbmlId::TagBinary, val.index, val.id),
        }
    }

    /// Write this child's frame.
    #[verifier::rlimit(60)]
    #[verifier::spinoff_prover]
    pub fn write_el(&self, w: &mut Vec<u8>) -> (r: Result<usize, MatroskaError>)
        ensures
            r is Ok <==> el_ok(self.model()),
            r is Ok ==> final(w)@ == old(w)@ + el_bytes(self.model())
                && r->Ok_0 == el_bytes(self.model()).len(),
            r is Err ==> final(w)@ == old(w)@ && r->Err_0 is InvalidVarIntMoreThanVintMax,
    {
        match self {
            Self::TagName(val) => crate::io::write_el_utf8(w, 0x45A3, (*val.v).as_str()),
            Self::TagLanguage(val) => crate::io::write_el_string(w, 0x447A, (*val.v).as_str()),
            Self::TagLanguageBcp47(val) => crate::io::write_el_string(w, 0x447B, (*val.v).as_str()),
            Self::TagDefault(val) => crate::io::write_el_uint(w, 0x4484, &*val.v),
            Self::TagDefaultBogus(val) => crate::io::write_el_uint(w, 0x44B4, &*val.v),
            Self::TagString(val) => crate::io::write_el_utf8(w, 0x4487, (*val.v).as_str()),
            Self::TagBinary(val) => crate::io::write_el_bin(w, 0x4485, (*val.v).as_slice()),
        }
    }
}

impl EbmlField for SimpleTagFields {
    open spec fn model(&self) -> FieldModel {
        match self {
            Self::TagName(e) => FieldModel::Text { id: 0x45A3, idx: e.index, key: e.id, s: (*e.v)@ },
            Self::TagLanguage(e) => FieldModel::Text { id: 0x447A, idx: e.index, key: e.id, s: (*e.v)@ },
            Self::TagLanguageBcp47(e) => FieldModel::Text { id: 0x447B, idx: e.index, key: e.id, s: (*e.v)@ },
            Self::TagDefault(e) => FieldModel::UInt { id: 0x4484, idx: e.index, key: e.id, v: *e.v },
            Self::TagDefaultBogus(e) => FieldModel::UInt { id: 0x44B4, idx: e.index, key: e.id, v: *e.v },
            Self::TagString(e) => FieldModel::Text { id: 0x4487, idx: e.index, key: e.id, s: (*e.v)@ },
            Self::TagBinary(e) => FieldModel::Bin { id: 0x4485, idx: e.index, key: e.id, b: (*e.v)@ },
        }
    }

    fn sort_key(&self) -> (r: (Option<u64>, u64)) {
        match self {
            Self::TagName(e) => (e.index, e.id),
            Self::TagLanguage(e) => (e.index, e.id),
            Self::TagLanguageBcp47(e) => (e.index, e.id),
            Self::TagDefault(e) => (e.index, e.id),
            Self::TagDefaultBogus(e) => (e.index, e.id),
            Self::TagString(e) => (e.index, e.id),
            Self::TagBinary(e) => (e.index, e.id),
        }
    }
}

} // verus!
