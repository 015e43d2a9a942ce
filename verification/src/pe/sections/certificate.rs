//! The attribute certificate table of an image: a run of certificates, each
//! of which starts on a quadword boundary.
use crate::containers::{spec_prepend, Table};
use crate::error::PerwError;
use crate::io::{u16_at, u32_at, Reader};
use vstd::bytes::*;
use vstd::prelude::*;
use vstd::slice::{slice_subrange, slice_to_vec};

verus! {

/// The kind of content that a certificate holds. The format names the values
/// below; any other number is kept as it is.
#[derive(Copy, Clone, Debug, PartialEq, Eq)]
pub enum CertificateType {
    /// An X.509 certificate
    X509,
    /// A PKCS#7 SignedData structure
    PkcsSignedData,
    /// Reserved
    Reserved1,
    /// A Terminal Server Protocol Stack certificate
    TsStackSigned,
    /// A type that the format does not name
    Other(u16),
}

impl CertificateType {
    /// The type that a number stands for.
    pub open spec fn spec_from_u16(val: u16) -> Self {
        match val {
            0x0001 => Self::X509,
            0x0002 => Self::PkcsSignedData,
            0x0003 => Self::Reserved1,
            0x0004 => Self::TsStackSigned,
            other => Self::Other(other),
        }
    }

    /// The type that a number stands for.
    #[verifier::when_used_as_spec(spec_from_u16)]
    pub fn from_u16(val: u16) -> (certificate_type: Self)
        ensures
            certificate_type == Self::spec_from_u16(val),
    {
        match val {
            0x0001 => Self::X509,
            0x0002 => Self::PkcsSignedData,
            0x0003 => Self::Reserved1,
            0x0004 => Self::TsStackSigned,
            other => Self::Other(other),
        }
    }
}

impl Default for CertificateType {
    /// The unnamed type 0.
    fn default() -> (certificate_type: Self)
        ensures
            certificate_type == Self::Other(0),
    {
        Self::Other(0)
    }
}

/// The version of a certificate. The format names the values below; any
/// other number is kept as it is.
#[derive(Copy, Clone, Debug, PartialEq, Eq)]
pub enum CertificateRevision {
    /// Version 1, which stands as 0x0100
    Revision1_0,
    /// Version 2, which stands as 0x0200
    Revision2_0,
    /// A version that the format does not name
    Other(u16),
}

impl CertificateRevision {
    /// The revision that a number stands for.
    pub open spec fn spec_from_u16(val: u16) -> Self {
        match val {
            0x0100 => Self::Revision1_0,
            0x0200 => Self::Revision2_0,
            other => Self::Other(other),
        }
    }

    /// The revision that a number stands for.
    #[verifier::when_used_as_spec(spec_from_u16)]
    pub fn from_u16(val: u16) -> (revision: Self)
        ensures
            revision == Self::spec_from_u16(val),
    {
        match val {
            0x0100 => Self::Revision1_0,
            0x0200 => Self::Revision2_0,
            other => Self::Other(other),
        }
    }
}

impl Default for CertificateRevision {
    /// The unnamed revision 0.
    fn default() -> (revision: Self)
        ensures
            revision == Self::Other(0),
    {
        Self::Other(0)
    }
}

/// One attribute certificate.
#[derive(Default, Clone, Debug, PartialEq, Eq)]
pub struct Certificate {
    /// The length of the certificate entry: its 4 own bytes and what follows.
    pub length: u32,
    /// The certificate version number.
    pub revision: CertificateRevision,
    /// The type of content in `certificate`.
    pub certificate_type: CertificateType,
    /// The certificate, such as an Authenticode signature.
    pub certificate: Vec<u8>,
}

/// What a certificate holds, as plain values.
pub struct CertificateView {
    pub length: u32,
    pub revision: CertificateRevision,
    pub certificate_type: CertificateType,
    pub certificate: Seq<u8>,
}

impl View for Certificate {
    type V = CertificateView;

    open spec fn view(&self) -> CertificateView {
        CertificateView {
            length: self.length,
            revision: self.revision,
            certificate_type: self.certificate_type,
            certificate: self.certificate@,
        }
    }
}

impl Certificate {
    /// The count of bytes that follow the length field of an entry of the
    /// given length.
    pub open spec fn spec_body_len(length: u32) -> int {
        if length >= 4 {
            length - 4
        } else {
            0
        }
    }

    /// The certificate that `bytes` start with and the count of bytes that
    /// it takes: a length, then as many bytes as the length says less its own
    /// four, which hold the revision, the type and the certificate.
    pub open spec fn spec_read(bytes: Seq<u8>) -> Result<(CertificateView, nat), PerwError> {
        if bytes.len() < 4 {
            Err(PerwError::NotEnoughDataLeft { attempted_read: 4 })
        } else {
            let length = u32_at(bytes, 0);
            let body_len = Self::spec_body_len(length);
            if bytes.len() < 4 + body_len {
                Err(PerwError::NotEnoughDataLeft { attempted_read: body_len as usize })
            } else if body_len < 4 {
                Err(PerwError::NotEnoughDataLeft { attempted_read: 2 })
            } else {
                Ok(
                    (
                        CertificateView {
                            length,
                            revision: CertificateRevision::spec_from_u16(u16_at(bytes, 4)),
                            certificate_type: CertificateType::spec_from_u16(u16_at(bytes, 6)),
                            certificate: bytes.subrange(8, 4 + body_len),
                        },
                        (4 + body_len) as nat,
                    ),
                )
            }
        }
    }

    /// Reads one certificate.
    pub fn read<'a, R: Reader<'a>>(reader: &mut R) -> (r: Result<Self, PerwError>)
        ensures
            match Self::spec_read(old(reader).unread()) {
                Ok((certificate, taken)) => {
                    &&& r matches Ok(got)
                    &&& got@ == certificate
                    &&& taken <= old(reader).unread().len()
                    &&& final(reader).unread() == old(reader).unread().skip(taken as int)
                },
                Err(e) => r matches Err(got) && got == e,
            },
    {
        let ghost bytes = old(reader).unread();
        let length_bytes = reader.read_slice(4)?;
        let length = u32_from_le_bytes(length_bytes);
        assert(length_bytes@ =~= bytes.subrange(0, 4));
        let cert_data_len = length.saturating_sub(4) as usize;
        let cert_data = reader.read_slice(cert_data_len)?;
        assert(cert_data@ =~= bytes.subrange(4, 4 + cert_data_len));
        assert(reader.unread() =~= bytes.skip(4 + cert_data_len));
        if cert_data_len < 4 {
            return Err(PerwError::not_enough_data(2));
        }
        let revision = CertificateRevision::from_u16(
            u16_from_le_bytes(slice_subrange(cert_data, 0, 2)),
        );
        let certificate_type = CertificateType::from_u16(
            u16_from_le_bytes(slice_subrange(cert_data, 2, 4)),
        );
        let certificate = slice_to_vec(slice_subrange(cert_data, 4, cert_data_len));
        assert(cert_data@.subrange(0, 2) =~= bytes.subrange(4, 6));
        assert(cert_data@.subrange(2, 4) =~= bytes.subrange(6, 8));
        assert(certificate@ =~= bytes.subrange(8, 4 + cert_data_len));
        Ok(Self { length, revision, certificate_type, certificate })
    }
}

/// The attribute certificate table of an image, decoded.
#[derive(Default, Clone, Debug, PartialEq, Eq)]
pub struct CertificateDataDirectory {
    pub certificates: Table<Certificate>,
}

/// The views of the certificates, in order.
pub open spec fn spec_certificate_views(certificates: Seq<Certificate>) -> Seq<CertificateView> {
    Seq::new(certificates.len(), |i: int| certificates[i]@)
}

impl View for CertificateDataDirectory {
    type V = Seq<CertificateView>;

    open spec fn view(&self) -> Seq<CertificateView> {
        spec_certificate_views(self.certificates@)
    }
}

/// The least multiple of 8 that is not below `offset`.
pub open spec fn spec_align8(offset: int) -> int {
    ((offset + 7) / 8) * 8
}

/// The least multiple of 8 that is not below `offset`, where the machine can
/// hold it.
pub fn align8(offset: usize) -> (next: Option<usize>)
    ensures
        match next {
            Some(n) => n == spec_align8(offset as int),
            None => spec_align8(offset as int) > usize::MAX,
        },
{
    let padding: usize = if offset % 8 == 0 {
        0
    } else {
        8 - offset % 8
    };
    if usize::MAX - offset < padding {
        None
    } else {
        Some(offset + padding)
    }
}

impl CertificateDataDirectory {
    /// The error for a certificate that ends behind the end of the table.
    pub open spec fn overrun() -> PerwError {
        PerwError::InvalidImageFormat {
            message: "Certificate entry runs past the end of the certificate table.",
        }
    }

    /// The certificates that stand in `section_data` from `offset` on. The
    /// entry that follows a certificate starts at the next multiple of 8
    /// behind its length. The table ends where that position is the end of
    /// the bytes; a position behind the end is an error.
    pub open spec fn spec_parse_from(section_data: Seq<u8>, offset: int) -> Result<
        Seq<CertificateView>,
        PerwError,
    >
        decreases section_data.len() - offset,
    {
        if offset < 0 || offset > section_data.len() {
            Err(Self::overrun())
        } else {
            match Certificate::spec_read(section_data.skip(offset)) {
                Err(e) => Err(e),
                Ok((certificate, _)) => {
                    let next = spec_align8(offset + certificate.length);
                    if next == section_data.len() {
                        Ok(seq![certificate])
                    } else if next > section_data.len() || next <= offset {
                        Err(Self::overrun())
                    } else {
                        spec_prepend(seq![certificate], Self::spec_parse_from(section_data, next))
                    }
                },
            }
        }
    }

    /// The certificates that the bytes of the directory hold.
    pub open spec fn spec_parse(section_data: Seq<u8>) -> Result<Seq<CertificateView>, PerwError> {
        Self::spec_parse_from(section_data, 0)
    }

    /// Decodes the certificate table from the bytes of its directory.
    pub fn parse(section_data: &[u8]) -> (r: Result<Self, PerwError>)
        ensures
            match Self::spec_parse(section_data@) {
                Ok(certificates) => r matches Ok(got) && got@ == certificates,
                Err(e) => r matches Err(got) && got == e,
            },
    {
        let len = section_data.len();
        let mut offset: usize = 0;
        let mut certificates: Vec<Certificate> = Vec::new();
        let ghost whole = Self::spec_parse(section_data@);
        assert(spec_prepend(spec_certificate_views(certificates@), whole) =~= whole) by {
            if whole is Ok {
                assert(spec_certificate_views(certificates@) + whole->Ok_0 =~= whole->Ok_0);
            }
        }
        loop
            invariant
                len == section_data@.len(),
                offset <= len,
                whole == Self::spec_parse(section_data@),
                whole == spec_prepend(
                    spec_certificate_views(certificates@),
                    Self::spec_parse_from(section_data@, offset as int),
                ),
            decreases len - offset,
        {
            let mut reader = slice_subrange(section_data, offset, len);
            assert(reader@ =~= section_data@.skip(offset as int));
            let cert = Certificate::read(&mut reader)?;
            let ghost have = spec_certificate_views(certificates@);
            assert(spec_certificate_views(certificates@.push(cert)) =~= have.push(cert@));
            assert(cert.length >= 8);
            let end = offset + cert.length as usize;
            certificates.push(cert);
            let next = match align8(end) {
                Some(next) => next,
                None => {
                    return Err(
                        PerwError::invalid_image_format(
                            "Certificate entry runs past the end of the certificate table.",
                        ),
                    );
                },
            };
            if next > len {
                return Err(
                    PerwError::invalid_image_format(
                        "Certificate entry runs past the end of the certificate table.",
                    ),
                );
            }
            if next == len {
                assert(have + seq![cert@] =~= have.push(cert@));
                return Ok(Self { certificates: Table(certificates) });
            }
            assert(next >= end);
            proof {
                let rest = Self::spec_parse_from(section_data@, next as int);
                if rest is Ok {
                    assert(have + (seq![cert@] + rest->Ok_0) =~= have.push(cert@) + rest->Ok_0);
                }
            }
            offset = next;
        }
    }
}

} // verus!
