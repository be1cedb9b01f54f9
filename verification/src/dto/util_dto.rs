//! Requests and responses of the lookup endpoints: countries, cities, institutions, categories.

use vstd::prelude::*;
use crate::city_list::{City, Country};

verus! {

/// A search for countries.
#[derive(Debug, Clone)]
pub struct GetCountryOption {
    pub country: Option<String>,
    pub limit: Option<u32>,
}

impl Default for GetCountryOption {
    fn default() -> (r: Self)
        ensures
            r.country is None,
            r.limit is None,
    {
        GetCountryOption {
            country: None,
            limit: None,
        }
    }
}

/// The countries found.
#[derive(Debug, Clone)]
pub struct GetCountryResponse {
    pub country_list: Vec<Country>,
}

/// A search for cities of a country.
#[derive(Debug, Clone)]
pub struct GetCityOption {
    pub country: Option<String>,
    pub city: Option<String>,
}

impl Default for GetCityOption {
    fn default() -> (r: Self)
        ensures
            r.country is None,
            r.city is None,
    {
        GetCityOption {
            country: None,
            city: None,
        }
    }
}

/// A search for institutions.
#[derive(Debug, Clone)]
pub struct GetInstitutionsOption {
    pub search_type: String,
    pub query: String,
}

impl Default for GetInstitutionsOption {
    fn default() -> (r: Self)
        ensures
            r.search_type@ == Seq::<char>::empty(),
            r.query@ == Seq::<char>::empty(),
    {
        GetInstitutionsOption {
            search_type: String::new(),
            query: String::new(),
        }
    }
}

/// An institution found by the place search.
#[derive(Debug, Clone)]
pub struct GetInstitutionsItem {
    pub name: String,
    pub formatted_address: String,
    pub place_id: String,
}

impl Default for GetInstitutionsItem {
    fn default() -> (r: Self)
        ensures
            r.name@ == Seq::<char>::empty(),
            r.formatted_address@ == Seq::<char>::empty(),
            r.place_id@ == Seq::<char>::empty(),
    {
        GetInstitutionsItem {
            name: String::new(),
            formatted_address: String::new(),
            place_id: String::new(),
        }
    }
}

/// The place whose details are asked for.
#[derive(Debug, Clone)]
pub struct GetInstitutionDetailOption {
    pub place_id: String,
}

impl Default for GetInstitutionDetailOption {
    fn default() -> (r: Self)
        ensures
            r.place_id@ == Seq::<char>::empty(),
    {
        GetInstitutionDetailOption {
            place_id: String::new(),
        }
    }
}

/// The details of an institution.
#[derive(Debug, Clone)]
pub struct GetInstitutionDetailItem {
    pub name: String,
    pub formatted_address: String,
    pub place_id: String,
    pub country: Option<String>,
    pub city: Option<String>,
    pub postal_code: Option<String>,
    pub international_phone_number: Option<String>,
}

impl Default for GetInstitutionDetailItem {
    fn default() -> (r: Self)
        ensures
            r.name@ == Seq::<char>::empty(),
            r.formatted_address@ == Seq::<char>::empty(),
            r.place_id@ == Seq::<char>::empty(),
            r.country is None,
            r.city is None,
            r.postal_code is None,
            r.international_phone_number is None,
    {
        GetInstitutionDetailItem {
            name: String::new(),
            formatted_address: String::new(),
            place_id: String::new(),
            country: None,
            city: None,
            postal_code: None,
            international_phone_number: None,
        }
    }
}

/// The cities found.
#[derive(Debug, Clone)]
pub struct GetCityResponse {
    pub city_list: Vec<City>,
}

/// A search for degrees.
#[derive(Debug, Clone)]
pub struct GetDegreeOption {
    pub degree: Option<String>,
    pub is_available: Option<bool>,
}

impl Default for GetDegreeOption {
    fn default() -> (r: Self)
        ensures
            r.degree is None,
            r.is_available is None,
    {
        GetDegreeOption {
            degree: None,
            is_available: None,
        }
    }
}

/// A search for research categories.
#[derive(Debug, Clone)]
pub struct GetCategoryOption {
    pub name: Option<String>,
    pub is_available: Option<bool>,
    pub start: Option<i32>,
    pub limit: Option<i32>,
}

impl Default for GetCategoryOption {
    fn default() -> (r: Self)
        ensures
            r.name is None,
            r.is_available is None,
            r.start is None,
            r.limit is None,
    {
        GetCategoryOption {
            name: None,
            is_available: None,
            start: None,
            limit: None,
        }
    }
}

/// A search for hashtags.
#[derive(Debug, Clone)]
pub struct GetHashTagsOption {
    pub hashtags: Option<String>,
    pub limit: Option<i32>,
    pub order_by: Option<i32>,
}

impl Default for GetHashTagsOption {
    fn default() -> (r: Self)
        ensures
            r.hashtags is None,
            r.limit is None,
            r.order_by is None,
    {
        GetHashTagsOption {
            hashtags: None,
            limit: None,
            order_by: None,
        }
    }
}

/// A search for employments.
#[derive(Debug, Clone)]
pub struct GetEmploymentsOption {
    pub employments: Option<String>,
}

impl Default for GetEmploymentsOption {
    fn default() -> (r: Self)
        ensures
            r.employments is None,
    {
        GetEmploymentsOption {
            employments: None,
        }
    }
}

/// A stored file to remove.
#[derive(Debug, Clone)]
pub struct RemoveFileFromS3Request {
    pub link: String,
}

/// The stored paper whose project information is asked for.
#[derive(Debug, Clone)]
pub struct ExtractProjectInfoRequest {
    pub s3_paper: String,
}

impl Default for ExtractProjectInfoRequest {
    fn default() -> (r: Self)
        ensures
            r.s3_paper@ == Seq::<char>::empty(),
    {
        ExtractProjectInfoRequest {
            s3_paper: String::new(),
        }
    }
}

/// The project information extracted from a paper.
#[derive(Debug, Clone)]
pub struct NerdNuggetsInfo {
    pub title: String,
    pub description: String,
    pub research_objectives: Vec<String>,
    pub methodology: String,
    pub expected_outcomes: String,
    pub strengths_potential_limitations: StrengthsLimitations,
    pub commercial_applications: String,
    pub societal_benefit: String,
    pub risk_assessment: String,
    pub tags: Vec<String>,
}

/// The strengths and limitations found in a paper.
#[derive(Debug, Clone)]
pub struct StrengthsLimitations {
    pub strengths: Vec<String>,
    pub limitations: Vec<String>,
}

/// The project information extracted from a paper, with the service's status.
#[derive(Debug, Clone)]
pub struct ExtractProjectInfoResponse {
    pub status: String,
    pub data: NerdNuggetsInfo,
}
} // verus!
