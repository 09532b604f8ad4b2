use python_comm_macros::asx::{as_python_dict, as_python_object, as_sql_table};
use python_comm_macros::decl::{
    Annotation, Body, Declaration, FieldDecl, FieldStyle, Literal, MetaItem, MetaList,
};
use python_comm_macros::sql_model::as_sql_model;

fn name_value(key: &str, value: &str) -> MetaItem {
    MetaItem::NameValue { key: Some(key.to_string()), value: Literal::Str(value.to_string()) }
}

fn annotation(path: &str, items: Vec<MetaItem>) -> Annotation {
    Annotation {
        path: path.to_string(),
        list: Some(MetaList { ident: Some(path.to_string()), items }),
    }
}

fn field(ident: &str, ty: &str, annotations: Vec<Annotation>) -> FieldDecl {
    FieldDecl { ident: Some(ident.to_string()), ty: ty.to_string(), annotations }
}

fn person() -> Declaration {
    Declaration {
        ident: "Person".to_string(),
        annotations: vec![annotation("table", vec![name_value("name", "person")])],
        body: Body::Struct {
            style: FieldStyle::Named,
            fields: vec![
                field(
                    "id",
                    "i32",
                    vec![annotation(
                        "column",
                        vec![name_value("auto", ""), name_value("key", "PRIMARY")],
                    )],
                ),
                field("name", "String", vec![]),
            ],
        },
    }
}

fn bar() -> Declaration {
    Declaration {
        ident: "Bar".to_string(),
        annotations: vec![],
        body: Body::Struct {
            style: FieldStyle::Named,
            fields: vec![
                field("id", "u64", vec![]),
                field("price", "Decimal", vec![]),
                field("note_default", "String", vec![]),
                field("day", "Date", vec![]),
                field("name", "String", vec![]),
            ],
        },
    }
}

#[test]
fn model_text_is_exact() {
    let expected = r###"impl Person {
    #[auto_func_name]
    /// 保存
    pub fn create_with(name: String) -> Result<Option<u64>, MoreError> {
        let id = 0;
        Self { id, name, }.create().m(m!(__func__))
    }

    pub fn id<T>(mut self, v: T) -> Self
    where
        T: Into<i32>,
    {
        self.id = v.into();
        self
    }

    pub fn name<T>(mut self, v: T) -> Self
    where
        T: Into<String>,
    {
        self.name = v.into();
        self
    }

}

impl SqlModel for Person {
    /// 比较两个 obj
    fn equal(&self, other: &Self) -> bool {
        self.id == other.id && self.name == other.name
    }

    /// 比较两个 obj, 排除 id
    fn equal_without_id(&self, other: &Self) -> bool {
        self.name == other.name
    }

    /// 返回加锁的 DbPool, 使用者需命名并引入 WhoCreateDbPool 或 who 属性指定的类名
    #[auto_func_name]
    fn lock() -> Result<std::sync::MutexGuard<'static, python_comm::use_sql::DbPool>, python_comm::use_m::MoreError> {
        WhoCreateDbPool::lock().m(m!(__func__))
    }

    fn make_create_table() -> &'static str {
        "CREATE TABLE `person` (\n    `id` int(11) NOT NULL AUTO_INCREMENT,\n    `name` varchar(32) NOT NULL,\n    PRIMARY KEY (`id`)\n);"
    }

    fn make_fields_b() -> &'static str {
        "`id`, `name`"
    }

    fn make_fields_bi() -> &'static str {
        "`name`"
    }

    fn make_fields_e() -> &'static str {
        "`id`=:id, `name`=:name"
    }

    fn make_fields_ei() -> &'static str {
        "`name`=:name"
    }

    fn make_fields_p() -> &'static str {
        ":id, :name"
    }

    fn make_fields_pi() -> &'static str {
        ":name"
    }

    fn make_fields_q() -> &'static str {
        "\"id\", \"name\""
    }

    fn make_fields_qc() -> &'static str {
        "\"id\", \"name\", "
    }

    fn make_fields_v(&self) -> mysql::params::Params {
        let v: Vec<(&str, mysql::Value)> = vec![("id", self.id.clone().into()), ("name", self.name.clone().into())];
        mysql::params::Params::from(v)
    }

    fn make_fields_vi(&self) -> mysql::params::Params {
        let v: Vec<(&str, mysql::Value)> = vec![("name", self.name.clone().into())];
        mysql::params::Params::from(v)
    }

    fn table_name() -> &'static str {
        "person"
    }

}

impl mysql::prelude::FromRow for Person {
    fn from_row_opt(mut row: mysql::Row) -> Result<Self, mysql::FromRowError> {
        let __ir_0 = match row.take(0usize) {
            Some(value) => match i32::get_intermediate(value) {
                Ok(ir) => ir,
                Err(mysql::FromValueError(value)) => {
                    row.place(0usize, value);
                    return Err(mysql::FromRowError(row));
                }
            },
            None => {
                return Err(mysql::FromRowError(row));
            }
        };
        let __ir_1 = match row.take(1usize) {
            Some(value) => match String::get_intermediate(value) {
                Ok(ir) => ir,
                Err(mysql::FromValueError(value)) => {
                    row.place(1usize, value);
                    row.place(0usize, __ir_0.rollback());
                    return Err(mysql::FromRowError(row));
                }
            },
            None => {
                row.place(0usize, __ir_0.rollback());
                return Err(mysql::FromRowError(row));
            }
        };
        let id = __ir_0.commit();
        let name = __ir_1.commit();
        Ok(Self {
            id, name, 
        })
    }
}
"###;
    assert_eq!(as_sql_model(&person()).unwrap(), expected);
}

#[test]
fn python_dict_text_is_exact() {
    let expected = r###"#[cfg(feature = "use_pyo3")]
struct PyBar {
    id: u64,
    price: python_comm::types::PyDecimal,
    day: Date,
    name: String,
}

#[cfg(feature = "use_pyo3")]
impl pyo3::FromPyObject<'_> for Bar {
    #[auto_func_name]
    fn extract(obj: &pyo3::types::PyAny) -> Result<Self, pyo3::PyErr> {
        let pyobj = PyBar::extract(obj)
            .or_else(|err| raise_error!("py", __func__, "for #struct_ident", "\n", err))?;
        Ok(pyobj.into())
    }
}

#[cfg(feature = "use_pyo3")]
impl pyo3::IntoPy<pyo3::PyObject> for Bar {
    fn into_py(self, python: pyo3::Python) -> pyo3::PyObject {
        let dict = pyo3::types::PyDict::new(python);
        let _ = dict.set_item(
            stringify!(id),
            pyo3::IntoPy::<pyo3::PyObject>::into_py(self.id, python),
        );
        let _ = dict.set_item(
            stringify!(price),
            pyo3::IntoPy::<pyo3::PyObject>::into_py(python_comm::types::PyDecimal(self.price), python),
        );
        let _ = dict.set_item(
            stringify!(day),
            pyo3::IntoPy::<pyo3::PyObject>::into_py(self.day, python),
        );
        let _ = dict.set_item(
            stringify!(name),
            pyo3::IntoPy::<pyo3::PyObject>::into_py(self.name, python),
        );
        dict.into()
    }
}

#[cfg(feature = "use_pyo3")]
impl PyBar {
    #[auto_func_name]
    fn extract(obj: &pyo3::types::PyAny) -> Result<Self, anyhow::Error> {
        let dict: &pyo3::types::PyDict = obj.cast_as()
            .or_else(|err| raise_error!(__func__, "for #py_ident", "\n", err))?;
        Ok(Self {
            id: dict
                .get_item(stringify!(id))
                .ok_or(raise_error!(
                    "raw",
                    __func__,
                    format!(r#"get_item("{}") error"#, stringify!(id))
                ))?
                .extract()
                .or_else(|err| raise_error!(__func__, "\n", err))?,
            price: dict
                .get_item(stringify!(price))
                .ok_or(raise_error!(
                    "raw",
                    __func__,
                    format!(r#"get_item("{}") error"#, stringify!(price))
                ))?
                .extract()
                .or_else(|err| raise_error!(__func__, "\n", err))?,
            day: dict
                .get_item(stringify!(day))
                .ok_or(raise_error!(
                    "raw",
                    __func__,
                    format!(r#"get_item("{}") error"#, stringify!(day))
                ))?
                .extract()
                .or_else(|err| raise_error!(__func__, "\n", err))?,
            name: dict
                .get_item(stringify!(name))
                .ok_or(raise_error!(
                    "raw",
                    __func__,
                    format!(r#"get_item("{}") error"#, stringify!(name))
                ))?
                .extract()
                .or_else(|err| raise_error!(__func__, "\n", err))?,
        })
    }
}

#[cfg(feature = "use_pyo3")]
impl Into<Bar> for PyBar {
    fn into(self) -> Bar {
        Bar {
            id: self.id.into(),
            price: self.price.into(),
            day: self.day.into(),
            name: self.name.into(),
        }
    }
}
"###;
    assert_eq!(as_python_dict(&bar()).unwrap(), expected);
}

#[test]
fn python_object_text_is_exact() {
    let expected = r###"#[cfg(feature = "use_pyo3")]
struct PyBar {
    id: u64,
    price: python_comm::types::PyDecimal,
    day: Date,
    name: String,
}

#[cfg(feature = "use_pyo3")]
impl pyo3::FromPyObject<'_> for Bar {
    #[auto_func_name]
    fn extract(obj: &pyo3::types::PyAny) -> Result<Self, pyo3::PyErr> {
        let pyobj = PyBar::extract(obj).or_else(|err| raise_error!("py", __func__, "\n", err))?;
        Ok(pyobj.into())
    }
}

#[cfg(feature = "use_pyo3")]
impl pyo3::IntoPy<pyo3::PyObject> for Bar {
    fn into_py(self, python: pyo3::Python) -> pyo3::PyObject {
        let out = python_comm::types::PyClassObject {}.into_py(python);
        if let Ok(obj) = out.extract::<&pyo3::types::PyAny>(python) {
            let _ = obj.setattr(stringify!(id), self.id);
            let _ = obj.setattr(stringify!(price), python_comm::types::PyDecimal(self.price));
            let _ = obj.setattr(stringify!(day), self.day);
            let _ = obj.setattr(stringify!(name), self.name);
        }
        out
    }
}

#[cfg(feature = "use_pyo3")]
impl PyBar {
    #[auto_func_name]
    fn extract(obj: &pyo3::types::PyAny) -> Result<Self, anyhow::Error> {
        Ok(Self {
            id: obj
                .getattr(stringify!(id))
                .or_else(|err| raise_error!(__func__, "\n", err))?
                .extract()
                .or_else(|err| raise_error!(__func__, "\n", err))?,
            price: obj
                .getattr(stringify!(price))
                .or_else(|err| raise_error!(__func__, "\n", err))?
                .extract()
                .or_else(|err| raise_error!(__func__, "\n", err))?,
            day: obj
                .getattr(stringify!(day))
                .or_else(|err| raise_error!(__func__, "\n", err))?
                .extract()
                .or_else(|err| raise_error!(__func__, "\n", err))?,
            name: obj
                .getattr(stringify!(name))
                .or_else(|err| raise_error!(__func__, "\n", err))?
                .extract()
                .or_else(|err| raise_error!(__func__, "\n", err))?,
        })
    }
}

#[cfg(feature = "use_pyo3")]
impl Into<Bar> for PyBar {
    fn into(self) -> Bar {
        Bar {
            id: self.id.into(),
            price: self.price.into(),
            day: self.day.into(),
            name: self.name.into(),
        }
    }
}
"###;
    assert_eq!(as_python_object(&bar()).unwrap(), expected);
}

#[test]
fn sql_table_text_is_exact() {
    let expected = r###"impl Bar {
    /// 字段名, 含替换规则
    pub fn field_names() -> String {
        let mut names = "`id`, `price`, `day`, `name`".to_string();
        for (from_str, to_str) in &Self::replace() {
            names = names.replace(from_str, to_str);
        }
        names
    }

    /// 获取多个记录, 含带参条件
    #[auto_func_name]
    pub fn get_rows<P>(where_and_more: &str, params: P) -> Result<Vec<Self>, anyhow::Error>
    where
        P: Into<mysql::params::Params>,
    {
        let sql = format!(
            "SELECT {} FROM {} {}",
            Self::field_names(),
            Self::table_name(),
            where_and_more
        );
        let results = GlobalDbPool::get()
            .or_else(|err| raise_error!(__func__, "\n", err))?
            .exec_opt(&sql, params)
            .or_else(|err| raise_error!(__func__, &sql, "\n", err))?;
        for result in &results {
            if let Err(err) = result {
                return raise_error!(__func__, "\n", err);
            }
        }
        Ok(results.into_iter().map(|x| x.unwrap()).collect())
    }

    /// 获取多个记录, 不含带参参数
    #[auto_func_name]
    pub fn get_rows2(where_and_more: &str) -> Result<Vec<Self>, anyhow::Error> {
        let sql = format!(
            "SELECT {} FROM {} {}",
            Self::field_names(),
            Self::table_name(),
            where_and_more
        );
        let results = GlobalDbPool::get()
            .or_else(|err| raise_error!(__func__, "\n", err))?
            .exec_opt(&sql, mysql::params::Params::Empty)
            .or_else(|err| raise_error!(__func__, &sql, "\n", err))?;
        for result in &results {
            if let Err(err) = result {
                return raise_error!(__func__, "\n", err);
            }
        }
        Ok(results.into_iter().map(|x| x.unwrap()).collect())
    }

    /// 获取单个记录, 含带参条件
    #[auto_func_name]
    pub fn get_row<P>(where_and_more: &str, params: P) -> Result<Option<Self>, anyhow::Error>
    where
        P: Into<mysql::params::Params>,
    {
        let sql = format!(
            "SELECT {} FROM {} {} LIMIT 1",
            Self::field_names(),
            Self::table_name(),
            where_and_more
        );
        match GlobalDbPool::get()
            .or_else(|err| raise_error!(__func__, "\n", err))?
            .exec_first_opt(&sql, params)
            .or_else(|err| raise_error!(__func__, &sql, "\n", err))?
        {
            Some(Ok(result)) => Ok(Some(result)),
            Some(Err(err)) => raise_error!(__func__, "\n", err),
            None => Ok(None),
        }
    }

    /// 获取单个记录, 不含带参参数
    #[auto_func_name]
    pub fn get_row2(where_and_more: &str) -> Result<Option<Self>, anyhow::Error> {
        let sql = format!(
            "SELECT {} FROM {} {} LIMIT 1",
            Self::field_names(),
            Self::table_name(),
            where_and_more
        );
        match GlobalDbPool::get()
            .or_else(|err| raise_error!(__func__, "\n", err))?
            .exec_first_opt(&sql, mysql::params::Params::Empty)
            .or_else(|err| raise_error!(__func__, &sql, "\n", err))?
        {
            Some(Ok(result)) => Ok(Some(result)),
            Some(Err(err)) => raise_error!(__func__, "\n", err),
            None => Ok(None),
        }
    }

    /// 保存
    #[auto_func_name]
    pub fn save(&self) -> Result<Option<u64>, anyhow::Error> {
        let mut sql = GlobalDbPool::get().or_else(|err| raise_error!(__func__, "\n", err))?;
        if self.id != 0 {
            let text = format!("UPDATE {} SET {} WHERE id={}", Self::table_name(), "`id`=:id, `price`=:price, `day`=:day, `name`=:name", self.id);
            sql
                .exec_drop(&text, params! {stringify!(id) => self.id, stringify!(price) => self.price, stringify!(day) => self.day.s().clone(), stringify!(name) => self.name.clone(), })
                .or_else(|err| raise_error!(__func__, &text, "\n", err))?;
            Ok(None)
        } else {
            let text = format!(
                "INSERT INTO {} ({}) VALUES ({})",
                Self::table_name(),
                "`id`, `price`, `day`, `name`",
                ":id, :price, :day, :name",
            );
            let ret = sql
                .exec_iter(&text, params! {stringify!(id) => self.id, stringify!(price) => self.price, stringify!(day) => self.day.s().clone(), stringify!(name) => self.name.clone(), })
                .or_else(|err| raise_error!(__func__, &text, "\n", err))?;
            Ok(ret.last_insert_id())
        }
    }
}

impl mysql::prelude::FromRow for Bar {
    fn from_row_opt(mut row: mysql::Row) -> Result<Self, mysql::FromRowError> {
        let __ir_0 = match row.take(0usize) {
            Some(value) => match u64::get_intermediate(value) {
                Ok(ir) => ir,
                Err(mysql::FromValueError(value)) => {
                    row.place(0usize, value);
                    return Err(mysql::FromRowError(row));
                }
            },
            None => {
                return Err(mysql::FromRowError(row));
            }
        };
        let __ir_1 = match row.take(1usize) {
            Some(value) => match Decimal::get_intermediate(value) {
                Ok(ir) => ir,
                Err(mysql::FromValueError(value)) => {
                    row.place(1usize, value);
                    row.place(0usize, __ir_0.rollback());
                    return Err(mysql::FromRowError(row));
                }
            },
            None => {
                row.place(0usize, __ir_0.rollback());
                return Err(mysql::FromRowError(row));
            }
        };
        let __ir_3 = match row.take(3usize) {
            Some(value) => match Date::get_intermediate(value) {
                Ok(ir) => ir,
                Err(mysql::FromValueError(value)) => {
                    row.place(3usize, value);
                    row.place(0usize, __ir_0.rollback());
                    row.place(1usize, __ir_1.rollback());
                    return Err(mysql::FromRowError(row));
                }
            },
            None => {
                row.place(0usize, __ir_0.rollback());
                row.place(1usize, __ir_1.rollback());
                return Err(mysql::FromRowError(row));
            }
        };
        let __ir_4 = match row.take(4usize) {
            Some(value) => match String::get_intermediate(value) {
                Ok(ir) => ir,
                Err(mysql::FromValueError(value)) => {
                    row.place(4usize, value);
                    row.place(0usize, __ir_0.rollback());
                    row.place(1usize, __ir_1.rollback());
                    row.place(3usize, __ir_3.rollback());
                    return Err(mysql::FromRowError(row));
                }
            },
            None => {
                row.place(0usize, __ir_0.rollback());
                row.place(1usize, __ir_1.rollback());
                row.place(3usize, __ir_3.rollback());
                return Err(mysql::FromRowError(row));
            }
        };
        let id = __ir_0.commit();
        let price = __ir_1.commit();
        let day = __ir_3.commit();
        let name = __ir_4.commit();
        Ok(Self {
            id, price, day, name, 
        })
    }
}
"###;
    assert_eq!(as_sql_table(&bar()).unwrap(), expected);
}
