//! Query parameters and response shapes of the catalog and upload routes.

use vstd::prelude::*;

verus! {

pub struct ProductQuery {
    pub page: Option<u32>,
    pub page_size: Option<u32>,
}

pub struct SearchQuery {
    pub q: String,
    pub page: Option<u32>,
    pub page_size: Option<u32>,
}

pub struct ProductResponse<T> {
    pub success: bool,
    pub data: T,
}

impl<T> ProductResponse<T> {
    pub fn new(data: T) -> (r: ProductResponse<T>)
        ensures
            r.success == true,
            r.data == data,
    {
        ProductResponse { success: true, data }
    }
}

pub struct ErrorResponse {
    pub success: bool,
    pub error: String,
}

impl ErrorResponse {
    pub fn new(error: String) -> (r: ErrorResponse)
        ensures
            r.success == false,
            r.error == error,
    {
        ErrorResponse { success: false, error }
    }
}

pub struct UploadResponse<T> {
    pub success: bool,
    pub data: T,
}

impl<T> UploadResponse<T> {
    pub fn new(data: T) -> (r: UploadResponse<T>)
        ensures
            r.success == true,
            r.data == data,
    {
        UploadResponse { success: true, data }
    }
}

pub struct FileUpload {
    pub url: String,
    pub object_name: String,
}

pub struct UploadData {
    pub uploads: Vec<FileUpload>,
}

} // verus!
