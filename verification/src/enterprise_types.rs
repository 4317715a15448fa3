//! Enterprise API request payloads and their wire rendering.
//!
//! Each request renders to a JSON object whose members are stated byte for
//! byte; optional fields appear only when set.

use vstd::prelude::*;

use crate::encode::spec_dec_bytes_i64;
use crate::json::{
    json_bool_value, json_i64_value, json_member, json_str_value, push_json_array,
    push_json_object, spec_json_array, spec_json_bool, spec_json_member, spec_json_object,
    spec_json_str,
};

verus! {

/// Request for getting a user by `userid`.
#[derive(Debug, Clone)]
pub struct ContactGetUserRequest {
    /// The vendor user id.
    pub userid: String,
    /// Language code (for example `zh_CN`).
    pub language: Option<String>,
}

/// The rendering of a get-user request.
pub open spec fn spec_get_user_request_json(r: ContactGetUserRequest) -> Seq<u8> {
    spec_json_object(
        seq![spec_json_member(("userid")@, spec_json_str(r.userid@))] + (match r.language {
            Some(l) => seq![spec_json_member(("language")@, spec_json_str(l@))],
            None => Seq::<Seq<u8>>::empty(),
        }),
    )
}

impl ContactGetUserRequest {
    /// Creates a request with required fields.
    pub fn new(userid: String) -> (r: Self)
        ensures
            r.userid@ == userid@,
            r.language is None,
    {
        Self { userid, language: None }
    }

    /// Sets language preference.
    pub fn language(self, value: String) -> (r: Self)
        ensures
            r.userid == self.userid,
            r.language == Some(value),
    {
        Self { language: Some(value), ..self }
    }

    /// Renders the request body.
    pub fn to_json(&self) -> (r: Vec<u8>)
        ensures
            r@ == spec_get_user_request_json(*self),
    {
        let mut members: Vec<Vec<u8>> = Vec::new();
        members.push(json_member("userid", json_str_value(self.userid.as_str())));
        if let Some(l) = &self.language {
            members.push(json_member("language", json_str_value(l.as_str())));
        }
        proof {
            assert(members.deep_view() =~~= seq![
                spec_json_member(("userid")@, spec_json_str(self.userid@)),
            ] + (match self.language {
                Some(l) => seq![spec_json_member(("language")@, spec_json_str(l@))],
                None => Seq::<Seq<u8>>::empty(),
            }));
        }
        let mut out: Vec<u8> = Vec::new();
        push_json_object(&mut out, &members);
        proof {
            assert(out@ =~= spec_json_object(members.deep_view()));
        }
        out
    }
}

/// Request for getting a user by mobile number.
#[derive(Debug, Clone)]
pub struct ContactGetUserByMobileRequest {
    /// Mobile phone number.
    pub mobile: String,
}

/// The rendering of a get-user-by-mobile request.
pub open spec fn spec_get_user_by_mobile_request_json(
    r: ContactGetUserByMobileRequest,
) -> Seq<u8> {
    spec_json_object(seq![spec_json_member(("mobile")@, spec_json_str(r.mobile@))])
}

impl ContactGetUserByMobileRequest {
    /// Creates a request with required fields.
    pub fn new(mobile: String) -> (r: Self)
        ensures
            r.mobile@ == mobile@,
    {
        Self { mobile }
    }

    /// Renders the request body.
    pub fn to_json(&self) -> (r: Vec<u8>)
        ensures
            r@ == spec_get_user_by_mobile_request_json(*self),
    {
        let mut members: Vec<Vec<u8>> = Vec::new();
        members.push(json_member("mobile", json_str_value(self.mobile.as_str())));
        proof {
            assert(members.deep_view() =~~= seq![
                spec_json_member(("mobile")@, spec_json_str(self.mobile@)),
            ]);
        }
        let mut out: Vec<u8> = Vec::new();
        push_json_object(&mut out, &members);
        proof {
            assert(out@ =~= spec_json_object(members.deep_view()));
        }
        out
    }
}

/// Request for getting a user by union id.
#[derive(Debug, Clone)]
pub struct ContactGetUserByUnionIdRequest {
    /// Union id.
    pub unionid: String,
}

/// The rendering of a get-user-by-unionid request.
pub open spec fn spec_get_user_by_unionid_request_json(
    r: ContactGetUserByUnionIdRequest,
) -> Seq<u8> {
    spec_json_object(seq![spec_json_member(("unionid")@, spec_json_str(r.unionid@))])
}

impl ContactGetUserByUnionIdRequest {
    /// Creates a request with required fields.
    pub fn new(unionid: String) -> (r: Self)
        ensures
            r.unionid@ == unionid@,
    {
        Self { unionid }
    }

    /// Renders the request body.
    pub fn to_json(&self) -> (r: Vec<u8>)
        ensures
            r@ == spec_get_user_by_unionid_request_json(*self),
    {
        let mut members: Vec<Vec<u8>> = Vec::new();
        members.push(json_member("unionid", json_str_value(self.unionid.as_str())));
        proof {
            assert(members.deep_view() =~~= seq![
                spec_json_member(("unionid")@, spec_json_str(self.unionid@)),
            ]);
        }
        let mut out: Vec<u8> = Vec::new();
        push_json_object(&mut out, &members);
        proof {
            assert(out@ =~= spec_json_object(members.deep_view()));
        }
        out
    }
}

/// Request for listing users in a department.
#[derive(Debug, Clone)]
pub struct ContactListUsersRequest {
    /// Department id.
    pub dept_id: i64,
    /// Cursor for pagination.
    pub cursor: i64,
    /// Page size.
    pub size: i64,
    /// Language code (for example `zh_CN`).
    pub language: Option<String>,
    /// Optional ordering field.
    pub order_field: Option<String>,
    /// Whether to include access-limited users.
    pub contain_access_limit: Option<bool>,
}

/// The rendering of a list-users request.
pub open spec fn spec_list_users_request_json(r: ContactListUsersRequest) -> Seq<u8> {
    spec_json_object(
        seq![
            spec_json_member(("dept_id")@, spec_dec_bytes_i64(r.dept_id as int)),
            spec_json_member(("cursor")@, spec_dec_bytes_i64(r.cursor as int)),
            spec_json_member(("size")@, spec_dec_bytes_i64(r.size as int)),
        ] + (match r.language {
            Some(l) => seq![spec_json_member(("language")@, spec_json_str(l@))],
            None => Seq::<Seq<u8>>::empty(),
        }) + (match r.order_field {
            Some(f) => seq![spec_json_member(("order_field")@, spec_json_str(f@))],
            None => Seq::<Seq<u8>>::empty(),
        }) + (match r.contain_access_limit {
            Some(b) => seq![spec_json_member(("contain_access_limit")@, spec_json_bool(b))],
            None => Seq::<Seq<u8>>::empty(),
        }),
    )
}

impl ContactListUsersRequest {
    /// Creates a request with required fields.
    pub fn new(dept_id: i64, cursor: i64, size: i64) -> (r: Self)
        ensures
            r.dept_id == dept_id,
            r.cursor == cursor,
            r.size == size,
            r.language is None,
            r.order_field is None,
            r.contain_access_limit is None,
    {
        Self { dept_id, cursor, size, language: None, order_field: None, contain_access_limit: None }
    }

    /// Sets language preference.
    pub fn language(self, value: String) -> (r: Self)
        ensures
            r == (ContactListUsersRequest { language: Some(value), ..self }),
    {
        Self { language: Some(value), ..self }
    }

    /// Sets ordering field.
    pub fn order_field(self, value: String) -> (r: Self)
        ensures
            r == (ContactListUsersRequest { order_field: Some(value), ..self }),
    {
        Self { order_field: Some(value), ..self }
    }

    /// Sets access-limit inclusion behavior.
    pub fn contain_access_limit(self, value: bool) -> (r: Self)
        ensures
            r == (ContactListUsersRequest { contain_access_limit: Some(value), ..self }),
    {
        Self { contain_access_limit: Some(value), ..self }
    }

    /// Renders the request body.
    pub fn to_json(&self) -> (r: Vec<u8>)
        ensures
            r@ == spec_list_users_request_json(*self),
    {
        let mut members: Vec<Vec<u8>> = Vec::new();
        members.push(json_member("dept_id", json_i64_value(self.dept_id)));
        members.push(json_member("cursor", json_i64_value(self.cursor)));
        members.push(json_member("size", json_i64_value(self.size)));
        if let Some(l) = &self.language {
            members.push(json_member("language", json_str_value(l.as_str())));
        }
        if let Some(f) = &self.order_field {
            members.push(json_member("order_field", json_str_value(f.as_str())));
        }
        if let Some(b) = &self.contain_access_limit {
            members.push(json_member("contain_access_limit", json_bool_value(*b)));
        }
        proof {
            assert(members.deep_view() =~~= seq![
                spec_json_member(("dept_id")@, spec_dec_bytes_i64(self.dept_id as int)),
                spec_json_member(("cursor")@, spec_dec_bytes_i64(self.cursor as int)),
                spec_json_member(("size")@, spec_dec_bytes_i64(self.size as int)),
            ] + (match self.language {
                Some(l) => seq![spec_json_member(("language")@, spec_json_str(l@))],
                None => Seq::<Seq<u8>>::empty(),
            }) + (match self.order_field {
                Some(f) => seq![spec_json_member(("order_field")@, spec_json_str(f@))],
                None => Seq::<Seq<u8>>::empty(),
            }) + (match self.contain_access_limit {
                Some(b) => seq![
                    spec_json_member(("contain_access_limit")@, spec_json_bool(b)),
                ],
                None => Seq::<Seq<u8>>::empty(),
            }));
        }
        let mut out: Vec<u8> = Vec::new();
        push_json_object(&mut out, &members);
        proof {
            assert(out@ =~= spec_json_object(members.deep_view()));
        }
        out
    }
}

/// Request for deleting a user.
#[derive(Debug, Clone)]
pub struct ContactDeleteUserRequest {
    /// User id.
    pub userid: String,
}

/// The rendering of a delete-user request.
pub open spec fn spec_delete_user_request_json(r: ContactDeleteUserRequest) -> Seq<u8> {
    spec_json_object(seq![spec_json_member(("userid")@, spec_json_str(r.userid@))])
}

impl ContactDeleteUserRequest {
    /// Creates a request with required fields.
    pub fn new(userid: String) -> (r: Self)
        ensures
            r.userid@ == userid@,
    {
        Self { userid }
    }

    /// Renders the request body.
    pub fn to_json(&self) -> (r: Vec<u8>)
        ensures
            r@ == spec_delete_user_request_json(*self),
    {
        let mut members: Vec<Vec<u8>> = Vec::new();
        members.push(json_member("userid", json_str_value(self.userid.as_str())));
        proof {
            assert(members.deep_view() =~~= seq![
                spec_json_member(("userid")@, spec_json_str(self.userid@)),
            ]);
        }
        let mut out: Vec<u8> = Vec::new();
        push_json_object(&mut out, &members);
        proof {
            assert(out@ =~= spec_json_object(members.deep_view()));
        }
        out
    }
}

/// Request for getting a department.
#[derive(Debug, Clone)]
pub struct ContactGetDepartmentRequest {
    /// Department id.
    pub dept_id: i64,
    /// Language code (for example `zh_CN`).
    pub language: Option<String>,
}

/// The rendering of a department request carrying an id and an optional
/// language.
pub open spec fn spec_department_request_json(
    dept_id: i64,
    language: Option<String>,
) -> Seq<u8> {
    spec_json_object(
        seq![spec_json_member(("dept_id")@, spec_dec_bytes_i64(dept_id as int))] + (
        match language {
            Some(l) => seq![spec_json_member(("language")@, spec_json_str(l@))],
            None => Seq::<Seq<u8>>::empty(),
        }),
    )
}

/// Renders a department request body from an id and an optional language.
fn department_request_json(dept_id: i64, language: &Option<String>) -> (r: Vec<u8>)
    ensures
        r@ == spec_department_request_json(dept_id, *language),
{
    let mut members: Vec<Vec<u8>> = Vec::new();
    members.push(json_member("dept_id", json_i64_value(dept_id)));
    if let Some(l) = language {
        members.push(json_member("language", json_str_value(l.as_str())));
    }
    proof {
        assert(members.deep_view() =~~= seq![
            spec_json_member(("dept_id")@, spec_dec_bytes_i64(dept_id as int)),
        ] + (match *language {
            Some(l) => seq![spec_json_member(("language")@, spec_json_str(l@))],
            None => Seq::<Seq<u8>>::empty(),
        }));
    }
    let mut out: Vec<u8> = Vec::new();
    push_json_object(&mut out, &members);
    proof {
        assert(out@ =~= spec_json_object(members.deep_view()));
    }
    out
}

impl ContactGetDepartmentRequest {
    /// Creates a request with required fields.
    pub fn new(dept_id: i64) -> (r: Self)
        ensures
            r.dept_id == dept_id,
            r.language is None,
    {
        Self { dept_id, language: None }
    }

    /// Sets language preference.
    pub fn language(self, value: String) -> (r: Self)
        ensures
            r.dept_id == self.dept_id,
            r.language == Some(value),
    {
        Self { language: Some(value), ..self }
    }

    /// Renders the request body.
    pub fn to_json(&self) -> (r: Vec<u8>)
        ensures
            r@ == spec_department_request_json(self.dept_id, self.language),
    {
        department_request_json(self.dept_id, &self.language)
    }
}

/// Request for deleting a department.
#[derive(Debug, Clone)]
pub struct ContactDeleteDepartmentRequest {
    /// Department id.
    pub dept_id: i64,
}

/// The rendering of a delete-department request.
pub open spec fn spec_delete_department_request_json(
    r: ContactDeleteDepartmentRequest,
) -> Seq<u8> {
    spec_json_object(seq![spec_json_member(("dept_id")@, spec_dec_bytes_i64(r.dept_id as int))])
}

impl ContactDeleteDepartmentRequest {
    /// Creates a request with required fields.
    pub fn new(dept_id: i64) -> (r: Self)
        ensures
            r.dept_id == dept_id,
    {
        Self { dept_id }
    }

    /// Renders the request body.
    pub fn to_json(&self) -> (r: Vec<u8>)
        ensures
            r@ == spec_delete_department_request_json(*self),
    {
        let mut members: Vec<Vec<u8>> = Vec::new();
        members.push(json_member("dept_id", json_i64_value(self.dept_id)));
        proof {
            assert(members.deep_view() =~~= seq![
                spec_json_member(("dept_id")@, spec_dec_bytes_i64(self.dept_id as int)),
            ]);
        }
        let mut out: Vec<u8> = Vec::new();
        push_json_object(&mut out, &members);
        proof {
            assert(out@ =~= spec_json_object(members.deep_view()));
        }
        out
    }
}

/// Request for listing child departments.
#[derive(Debug, Clone)]
pub struct ContactListSubDepartmentsRequest {
    /// Department id.
    pub dept_id: i64,
    /// Language code (for example `zh_CN`).
    pub language: Option<String>,
}

impl ContactListSubDepartmentsRequest {
    /// Creates a request with required fields.
    pub fn new(dept_id: i64) -> (r: Self)
        ensures
            r.dept_id == dept_id,
            r.language is None,
    {
        Self { dept_id, language: None }
    }

    /// Sets language preference.
    pub fn language(self, value: String) -> (r: Self)
        ensures
            r.dept_id == self.dept_id,
            r.language == Some(value),
    {
        Self { language: Some(value), ..self }
    }

    /// Renders the request body.
    pub fn to_json(&self) -> (r: Vec<u8>)
        ensures
            r@ == spec_department_request_json(self.dept_id, self.language),
    {
        department_request_json(self.dept_id, &self.language)
    }
}

/// Request for listing child department ids.
#[derive(Debug, Clone)]
pub struct ContactListSubDepartmentIdsRequest {
    /// Department id.
    pub dept_id: i64,
    /// Language code (for example `zh_CN`).
    pub language: Option<String>,
}

impl ContactListSubDepartmentIdsRequest {
    /// Creates a request with required fields.
    pub fn new(dept_id: i64) -> (r: Self)
        ensures
            r.dept_id == dept_id,
            r.language is None,
    {
        Self { dept_id, language: None }
    }

    /// Sets language preference.
    pub fn language(self, value: String) -> (r: Self)
        ensures
            r.dept_id == self.dept_id,
            r.language == Some(value),
    {
        Self { language: Some(value), ..self }
    }

    /// Renders the request body.
    pub fn to_json(&self) -> (r: Vec<u8>)
        ensures
            r@ == spec_department_request_json(self.dept_id, self.language),
    {
        department_request_json(self.dept_id, &self.language)
    }
}

/// Form field item for approval instance creation.
#[derive(Debug, Clone)]
pub struct ApprovalFormComponentValue {
    /// Form field name.
    pub name: String,
    /// Form field value.
    pub value: String,
}

/// The rendering of one approval form field.
pub open spec fn spec_form_component_json(v: ApprovalFormComponentValue) -> Seq<u8> {
    spec_json_object(
        seq![
            spec_json_member(("name")@, spec_json_str(v.name@)),
            spec_json_member(("value")@, spec_json_str(v.value@)),
        ],
    )
}

impl ApprovalFormComponentValue {
    /// Creates a form field item.
    pub fn new(name: String, value: String) -> (r: Self)
        ensures
            r.name@ == name@,
            r.value@ == value@,
    {
        Self { name, value }
    }
}

/// Request for creating an approval process instance.
#[derive(Debug, Clone)]
pub struct ApprovalCreateProcessInstanceRequest {
    /// Process code.
    pub process_code: String,
    /// Originator user id.
    pub originator_user_id: String,
    /// Department id.
    pub dept_id: i64,
    /// Optional approvers list.
    pub approvers: Option<String>,
    /// Optional cc list.
    pub cc_list: Option<String>,
    /// Optional cc position.
    pub cc_position: Option<String>,
    /// Form fields.
    pub form_component_values: Vec<ApprovalFormComponentValue>,
}

/// The rendering of an approval-creation request.
pub open spec fn spec_approval_create_request_json(
    r: ApprovalCreateProcessInstanceRequest,
) -> Seq<u8> {
    spec_json_object(
        seq![
            spec_json_member(("process_code")@, spec_json_str(r.process_code@)),
            spec_json_member(("originator_user_id")@, spec_json_str(r.originator_user_id@)),
            spec_json_member(("dept_id")@, spec_dec_bytes_i64(r.dept_id as int)),
        ] + (match r.approvers {
            Some(s) => seq![spec_json_member(("approvers")@, spec_json_str(s@))],
            None => Seq::<Seq<u8>>::empty(),
        }) + (match r.cc_list {
            Some(s) => seq![spec_json_member(("cc_list")@, spec_json_str(s@))],
            None => Seq::<Seq<u8>>::empty(),
        }) + (match r.cc_position {
            Some(s) => seq![spec_json_member(("cc_position")@, spec_json_str(s@))],
            None => Seq::<Seq<u8>>::empty(),
        }) + seq![
            spec_json_member(
                ("form_component_values")@,
                spec_json_array(
                    r.form_component_values@.map_values(
                        |v: ApprovalFormComponentValue| spec_form_component_json(v),
                    ),
                ),
            ),
        ],
    )
}

/// Renders an approval form field list value.
fn form_components_value(items: &Vec<ApprovalFormComponentValue>) -> (r: Vec<u8>)
    ensures
        r@ == spec_json_array(
            items@.map_values(|v: ApprovalFormComponentValue| spec_form_component_json(v)),
        ),
{
    let mut members: Vec<Vec<u8>> = Vec::new();
    let n = items.len();
    for i in 0..n
        invariant
            n == items@.len(),
            members.deep_view() =~~= items@.subrange(0, i as int).map_values(
                |v: ApprovalFormComponentValue| spec_form_component_json(v),
            ),
    {
        let v = &items[i];
        let mut inner: Vec<Vec<u8>> = Vec::new();
        inner.push(json_member("name", json_str_value(v.name.as_str())));
        inner.push(json_member("value", json_str_value(v.value.as_str())));
        let mut obj: Vec<u8> = Vec::new();
        push_json_object(&mut obj, &inner);
        proof {
            assert(inner.deep_view() =~~= seq![
                spec_json_member(("name")@, spec_json_str(v.name@)),
                spec_json_member(("value")@, spec_json_str(v.value@)),
            ]);
        }
        members.push(obj);
        proof {
            assert(items@.subrange(0, i + 1 as int).map_values(
                |v: ApprovalFormComponentValue| spec_form_component_json(v),
            ) =~~= items@.subrange(0, i as int).map_values(
                |v: ApprovalFormComponentValue| spec_form_component_json(v),
            ).push(spec_form_component_json(items@[i as int])));
        }
    }
    proof {
        assert(items@.subrange(0, n as int) =~= items@);
    }
    let mut out: Vec<u8> = Vec::new();
    push_json_array(&mut out, &members);
    out
}

impl ApprovalCreateProcessInstanceRequest {
    /// Creates a request with required fields.
    pub fn new(
        process_code: String,
        originator_user_id: String,
        dept_id: i64,
        form_component_values: Vec<ApprovalFormComponentValue>,
    ) -> (r: Self)
        ensures
            r.process_code@ == process_code@,
            r.originator_user_id@ == originator_user_id@,
            r.dept_id == dept_id,
            r.approvers is None,
            r.cc_list is None,
            r.cc_position is None,
            r.form_component_values == form_component_values,
    {
        Self {
            process_code,
            originator_user_id,
            dept_id,
            approvers: None,
            cc_list: None,
            cc_position: None,
            form_component_values,
        }
    }

    /// Sets approvers list.
    pub fn approvers(self, value: String) -> (r: Self)
        ensures
            r == (ApprovalCreateProcessInstanceRequest { approvers: Some(value), ..self }),
    {
        Self { approvers: Some(value), ..self }
    }

    /// Sets cc list.
    pub fn cc_list(self, value: String) -> (r: Self)
        ensures
            r == (ApprovalCreateProcessInstanceRequest { cc_list: Some(value), ..self }),
    {
        Self { cc_list: Some(value), ..self }
    }

    /// Sets cc position.
    pub fn cc_position(self, value: String) -> (r: Self)
        ensures
            r == (ApprovalCreateProcessInstanceRequest { cc_position: Some(value), ..self }),
    {
        Self { cc_position: Some(value), ..self }
    }

    /// Renders the request body.
    pub fn to_json(&self) -> (r: Vec<u8>)
        ensures
            r@ == spec_approval_create_request_json(*self),
    {
        let mut members: Vec<Vec<u8>> = Vec::new();
        members.push(json_member("process_code", json_str_value(self.process_code.as_str())));
        members.push(
            json_member(
                "originator_user_id",
                json_str_value(self.originator_user_id.as_str()),
            ),
        );
        members.push(json_member("dept_id", json_i64_value(self.dept_id)));
        if let Some(s) = &self.approvers {
            members.push(json_member("approvers", json_str_value(s.as_str())));
        }
        if let Some(s) = &self.cc_list {
            members.push(json_member("cc_list", json_str_value(s.as_str())));
        }
        if let Some(s) = &self.cc_position {
            members.push(json_member("cc_position", json_str_value(s.as_str())));
        }
        members.push(
            json_member("form_component_values", form_components_value(&self.form_component_values)),
        );
        proof {
            assert(members.deep_view() =~~= seq![
                spec_json_member(("process_code")@, spec_json_str(self.process_code@)),
                spec_json_member(
                    ("originator_user_id")@,
                    spec_json_str(self.originator_user_id@),
                ),
                spec_json_member(("dept_id")@, spec_dec_bytes_i64(self.dept_id as int)),
            ] + (match self.approvers {
                Some(s) => seq![spec_json_member(("approvers")@, spec_json_str(s@))],
                None => Seq::<Seq<u8>>::empty(),
            }) + (match self.cc_list {
                Some(s) => seq![spec_json_member(("cc_list")@, spec_json_str(s@))],
                None => Seq::<Seq<u8>>::empty(),
            }) + (match self.cc_position {
                Some(s) => seq![spec_json_member(("cc_position")@, spec_json_str(s@))],
                None => Seq::<Seq<u8>>::empty(),
            }) + seq![
                spec_json_member(
                    ("form_component_values")@,
                    spec_json_array(
                        self.form_component_values@.map_values(
                            |v: ApprovalFormComponentValue| spec_form_component_json(v),
                        ),
                    ),
                ),
            ]);
        }
        let mut out: Vec<u8> = Vec::new();
        push_json_object(&mut out, &members);
        proof {
            assert(out@ =~= spec_json_object(members.deep_view()));
        }
        out
    }
}

/// Request for terminating an approval process instance.
#[derive(Debug, Clone)]
pub struct ApprovalTerminateProcessInstanceRequest {
    /// Process instance id.
    pub process_instance_id: String,
    /// Operator user id.
    pub operating_userid: String,
    /// Whether the operator is the system.
    pub is_system: Option<bool>,
    /// Optional termination remark.
    pub remark: Option<String>,
}

/// The rendering of a termination request (unwrapped).
pub open spec fn spec_approval_terminate_request_json(
    r: ApprovalTerminateProcessInstanceRequest,
) -> Seq<u8> {
    spec_json_object(
        seq![
            spec_json_member(
                ("process_instance_id")@,
                spec_json_str(r.process_instance_id@),
            ),
            spec_json_member(("operating_userid")@, spec_json_str(r.operating_userid@)),
        ] + (match r.is_system {
            Some(b) => seq![spec_json_member(("is_system")@, spec_json_bool(b))],
            None => Seq::<Seq<u8>>::empty(),
        }) + (match r.remark {
            Some(s) => seq![spec_json_member(("remark")@, spec_json_str(s@))],
            None => Seq::<Seq<u8>>::empty(),
        }),
    )
}

impl ApprovalTerminateProcessInstanceRequest {
    /// Creates a request with required fields.
    pub fn new(process_instance_id: String, operating_userid: String) -> (r: Self)
        ensures
            r.process_instance_id@ == process_instance_id@,
            r.operating_userid@ == operating_userid@,
            r.is_system is None,
            r.remark is None,
    {
        Self { process_instance_id, operating_userid, is_system: None, remark: None }
    }

    /// Marks the operation as system-initiated.
    pub fn is_system(self, value: bool) -> (r: Self)
        ensures
            r == (ApprovalTerminateProcessInstanceRequest { is_system: Some(value), ..self }),
    {
        Self { is_system: Some(value), ..self }
    }

    /// Sets termination remark.
    pub fn remark(self, value: String) -> (r: Self)
        ensures
            r == (ApprovalTerminateProcessInstanceRequest { remark: Some(value), ..self }),
    {
        Self { remark: Some(value), ..self }
    }

    /// Renders the request body (unwrapped; the terminate endpoint wraps it
    /// under a `request` key).
    pub fn to_json(&self) -> (r: Vec<u8>)
        ensures
            r@ == spec_approval_terminate_request_json(*self),
    {
        let mut members: Vec<Vec<u8>> = Vec::new();
        members.push(
            json_member(
                "process_instance_id",
                json_str_value(self.process_instance_id.as_str()),
            ),
        );
        members.push(
            json_member("operating_userid", json_str_value(self.operating_userid.as_str())),
        );
        if let Some(b) = &self.is_system {
            members.push(json_member("is_system", json_bool_value(*b)));
        }
        if let Some(s) = &self.remark {
            members.push(json_member("remark", json_str_value(s.as_str())));
        }
        proof {
            assert(members.deep_view() =~~= seq![
                spec_json_member(
                    ("process_instance_id")@,
                    spec_json_str(self.process_instance_id@),
                ),
                spec_json_member(
                    ("operating_userid")@,
                    spec_json_str(self.operating_userid@),
                ),
            ] + (match self.is_system {
                Some(b) => seq![spec_json_member(("is_system")@, spec_json_bool(b))],
                None => Seq::<Seq<u8>>::empty(),
            }) + (match self.remark {
                Some(s) => seq![spec_json_member(("remark")@, spec_json_str(s@))],
                None => Seq::<Seq<u8>>::empty(),
            }));
        }
        let mut out: Vec<u8> = Vec::new();
        push_json_object(&mut out, &members);
        proof {
            assert(out@ =~= spec_json_object(members.deep_view()));
        }
        out
    }
}

/// Request for listing approval process instance ids.
#[derive(Debug, Clone)]
pub struct ApprovalListProcessInstanceIdsRequest {
    /// Start timestamp in milliseconds.
    pub start_time: i64,
    /// End timestamp in milliseconds.
    pub end_time: i64,
    /// Cursor for pagination.
    pub cursor: i64,
    /// Page size.
    pub size: i64,
    /// Optional process code.
    pub process_code: Option<String>,
    /// Optional user id list.
    pub userid_list: Option<String>,
}

/// The rendering of a list-instance-ids request.
pub open spec fn spec_approval_list_ids_request_json(
    r: ApprovalListProcessInstanceIdsRequest,
) -> Seq<u8> {
    spec_json_object(
        seq![
            spec_json_member(("start_time")@, spec_dec_bytes_i64(r.start_time as int)),
            spec_json_member(("end_time")@, spec_dec_bytes_i64(r.end_time as int)),
            spec_json_member(("cursor")@, spec_dec_bytes_i64(r.cursor as int)),
            spec_json_member(("size")@, spec_dec_bytes_i64(r.size as int)),
        ] + (match r.process_code {
            Some(s) => seq![spec_json_member(("process_code")@, spec_json_str(s@))],
            None => Seq::<Seq<u8>>::empty(),
        }) + (match r.userid_list {
            Some(s) => seq![spec_json_member(("userid_list")@, spec_json_str(s@))],
            None => Seq::<Seq<u8>>::empty(),
        }),
    )
}

impl ApprovalListProcessInstanceIdsRequest {
    /// Creates a request with required fields.
    pub fn new(start_time: i64, end_time: i64, cursor: i64, size: i64) -> (r: Self)
        ensures
            r.start_time == start_time,
            r.end_time == end_time,
            r.cursor == cursor,
            r.size == size,
            r.process_code is None,
            r.userid_list is None,
    {
        Self { start_time, end_time, cursor, size, process_code: None, userid_list: None }
    }

    /// Sets process code filter.
    pub fn process_code(self, value: String) -> (r: Self)
        ensures
            r == (ApprovalListProcessInstanceIdsRequest { process_code: Some(value), ..self }),
    {
        Self { process_code: Some(value), ..self }
    }

    /// Sets user id list filter.
    pub fn userid_list(self, value: String) -> (r: Self)
        ensures
            r == (ApprovalListProcessInstanceIdsRequest { userid_list: Some(value), ..self }),
    {
        Self { userid_list: Some(value), ..self }
    }

    /// Renders the request body.
    pub fn to_json(&self) -> (r: Vec<u8>)
        ensures
            r@ == spec_approval_list_ids_request_json(*self),
    {
        let mut members: Vec<Vec<u8>> = Vec::new();
        members.push(json_member("start_time", json_i64_value(self.start_time)));
        members.push(json_member("end_time", json_i64_value(self.end_time)));
        members.push(json_member("cursor", json_i64_value(self.cursor)));
        members.push(json_member("size", json_i64_value(self.size)));
        if let Some(s) = &self.process_code {
            members.push(json_member("process_code", json_str_value(s.as_str())));
        }
        if let Some(s) = &self.userid_list {
            members.push(json_member("userid_list", json_str_value(s.as_str())));
        }
        proof {
            assert(members.deep_view() =~~= seq![
                spec_json_member(("start_time")@, spec_dec_bytes_i64(self.start_time as int)),
                spec_json_member(("end_time")@, spec_dec_bytes_i64(self.end_time as int)),
                spec_json_member(("cursor")@, spec_dec_bytes_i64(self.cursor as int)),
                spec_json_member(("size")@, spec_dec_bytes_i64(self.size as int)),
            ] + (match self.process_code {
                Some(s) => seq![spec_json_member(("process_code")@, spec_json_str(s@))],
                None => Seq::<Seq<u8>>::empty(),
            }) + (match self.userid_list {
                Some(s) => seq![spec_json_member(("userid_list")@, spec_json_str(s@))],
                None => Seq::<Seq<u8>>::empty(),
            }));
        }
        let mut out: Vec<u8> = Vec::new();
        push_json_object(&mut out, &members);
        proof {
            assert(out@ =~= spec_json_object(members.deep_view()));
        }
        out
    }
}

/// Response payload for process-instance id listing.
#[derive(Debug, Clone)]
pub struct ApprovalListProcessInstanceIdsResult {
    /// Process instance ids.
    pub list: Vec<String>,
    /// Cursor for next page.
    pub next_cursor: Option<i64>,
}

} // verus!
