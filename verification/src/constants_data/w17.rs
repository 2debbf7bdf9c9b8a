//! The raw limb data of permutation width 17: the `(8 + 68) * 17`
//! additive round constants and the `17 * 17` row-major mixing matrix,
//! each entry a canonical field value below the modulus, little-endian in
//! four 64-bit limbs.

use vstd::prelude::*;

verus! {

use vstd::slice::slice_to_vec;

const C_T17: [[u64; 4]; 1292] = [
    [15965083003940126556, 7813637347704916066, 7807717741036988747, 3437798434121668908],
    [4403676137969649061, 16371108037731608284, 4413572437674940352, 1362889110576110512],
    [17030423186225183484, 18330114171614822253, 1632490268180492862, 1330195146724037368],
    [1193535685625591105, 14539767395754707533, 15149674884309331474, 497596518614368921],
    [10556453147261800587, 13391557915850073561, 6506255804738420468, 3415965175787757089],
    [9582115869770501402, 17548277685529090940, 17237772042785137709, 1629944165530502691],
    [16965714815740327414, 14644195537440715744, 4202205498938576361, 1102489125463936161],
    [8947612358626532042, 435458251718469565, 17661403448100012522, 2037997556690780975],
    [13451238743323232157, 9210851990052956179, 4667553433388827858, 1165997276521635049],
    [12672233065494592181, 3008731986034340029, 10593680176739381927, 2191684436413895202],
    [10201237596594518893, 7560633905624298520, 18268379094894210621, 645048259640348700],
    [4324302899940461798, 8233289379560937064, 9376184376816157596, 2899653994060478425],
    [7651124708648436605, 4212451609628612166, 12378227951948119060, 3285883410914254347],
    [9664672263720990585, 15594055243198162178, 6912896402242095338, 1666012361461769410],
    [12382332485582902177, 190138440656431679, 13643439621659650396, 3434949544065491874],
    [15859645047180472295, 389776634092950833, 5749105313755800119, 892088296671606633],
    [1580692827833615303, 17478200873072278537, 2635187208069780535, 2225030896061449762],
    [13749614403708645254, 940710111915462951, 1596623670636531130, 2828790151502340811],
    [5041018810013567290, 2703822825685800984, 15567329039057614421, 3463713030774233784],
    [8366567635855471254, 9364492972043975240, 12151192938814019295, 1768457058827118054],
    [13075634826294056520, 1441699791933638625, 2479676445547595696, 3249921089728726283],
    [11153193725786868381, 11723922138944803607, 6919867196231945292, 3190798571628475559],
    [9047967638099653262, 44796829099920829, 8348367566336443814, 3448421746032941909],
    [18337983480087232354, 4471496775145872805, 2850751311865580025, 44169554996037371],
    [18074196053873154406, 10587294141964720, 2811278701538413275, 132110960652865256],
    [390470174048354989, 15869649050062524480, 7903505583956359812, 733922935958793709],
    [10017204668591800757, 13523051546945050914, 4033003435621893997, 1715671073485456617],
    [2422233820092832418, 1987269372261020595, 2138598328337264384, 3110006070859343936],
    [4070672680471104908, 5105122751308449273, 14061388015733828674, 2733913479803559468],
    [15192827650558530163, 5676236146228404465, 1355005578449451915, 1259948153020271629],
    [766629306897233614, 14585366788427951593, 8911604670521557515, 776976759019611978],
    [6517202818348369243, 4825428554184072197, 4586716308689531546, 1352119872528999698],
    [6682120008611872567, 741561273505992796, 8387547768309766465, 1187559784606188263],
    [14445232456842906011, 13419133344435819781, 11179887827196040448, 2007373285753859830],
    [14375178927188594546, 16293246017438006143, 13430179952552182968, 36632047836002092],
    [7863915085120324341, 12662689878236125064, 6616480982420754423, 950177919034599585],
    [6667068000500385158, 17783156726675976272, 17202547511938790980, 2394080216430737100],
    [6892113806103604045, 4534485874549228769, 6648894104921151230, 1017939984970351243],
    [11529891403578968542, 12136768302595721162, 5606066946272859866, 2079084595499967736],
    [11506173002347346671, 3874629968321765767, 9286349691317602957, 232266454381030648],
    [3728427503592175799, 17029514777897125849, 14890169300309936152, 3046253407163424347],
    [3793316911664373306, 5203451001819175094, 13625899860980232129, 528847027383464159],
    [2414112580010224255, 10946037963372484512, 5423078023579721941, 1622090271558596339],
    [5688978514486469323, 738828525479902216, 11254191721994011140, 837785936115868258],
    [4451968698451565235, 16071788963628054809, 8425131931816493992, 2725118282542757073],
    [16884798964902040286, 2282655984289600419, 5085221534010576639, 2451689983266179855],
    [14285047210745724297, 14199228287342192241, 4109243977167013592, 1374542647916328239],
    [12956135728232920271, 10650491284749919216, 13012577465227964913, 1151130624351272797],
    [4237440641312778900, 15563654270249785543, 17388083749023900851, 3197484845703853513],
    [5806906355796180097, 9946075574494890614, 788396822585155907, 1933979014239345461],
    [12037300903142384381, 13987944902678006116, 2408707535879226181, 2800943935462039629],
    [17499388888998313008, 14111723020606774057, 3893979170703161877, 1934299009868285613],
    [855704425568240867, 6924683835593945256, 13776397088374694316, 1627542705552445794],
    [886610766908733163, 14229675258264960016, 12346667050681357214, 225291211209168900],
    [2733980460051256682, 4859747049727604231, 9381130527544097436, 1977221960461683303],
    [6885882835446980945, 5755260080673858042, 158315050820510597, 2256336357453349106],
    [16367718142429659442, 5263857674679505615, 12887930155261802501, 3016564165531405150],
    [18246779777051642918, 6044300860753248857, 16068640499647646752, 3124383576892937329],
    [1206371409762104195, 10794787721800133007, 5373970192827337769, 3157395968656431798],
    [16087231739658695350, 6419274521931065958, 8199484550787020470, 1811599406135821069],
    [10806505981050529468, 10274829794499816184, 14225016364847970463, 641666508758056610],
    [2833294548496340438, 12731927734294287214, 12813876055408031191, 1997688166136603564],
    [14168427902512511914, 16431304206993804366, 11546938117865378092, 3418191455223396877],
    [796895848663668634, 1839812684373662303, 6314949085839698620, 233575255556546661],
    [1225505460591142740, 9654881846706979900, 965101382169082042, 2700991230348023579],
    [12006232280077330859, 11902277935787386159, 12815469366533880446, 2024536748589707233],
    [9281053258501099053, 6826773563362916411, 10418757649994706573, 1400126936146418949],
    [6228489729262945768, 10690922946211592567, 7090345668833037741, 2080376078498051368],
    [1333716767145523064, 9734278471665971925, 15976975310555996071, 1422845289973929614],
    [11425531215231323159, 6800262476662912553, 10539602896961828065, 2462417537918836655],
    [11407444506665270420, 17377577286896467225, 13068864414303904762, 916280838039504772],
    [17906136503552432154, 11930899085374113069, 12954005214094559612, 1839948643847813099],
    [3405566927383514489, 1895811499674995300, 13516546753007715348, 3064176442313531617],
    [12047340154402899982, 11598673910410627363, 10299246119978438506, 581215549469459376],
    [11105527884315217872, 3914826920634867537, 1291995401119300695, 1229572544540329393],
    [229324055893496174, 12554814240255747569, 923680611385468766, 1409173072654741153],
    [6756716727152245523, 5852820819619033387, 14411159269960683815, 2038134451638068613],
    [15394786573449018141, 14789572155107416601, 6315346262693189866, 2002164740099644805],
    [12887615963831489149, 14172357307176958027, 13552602200112074151, 2257934568144144757],
    [13375096892236743749, 1207993288459179660, 809638547410869149, 2873088208500943332],
    [5686648617763930289, 7475143386171915681, 17487038346365091212, 3412778020447341982],
    [16069293311516145709, 18297919671704443010, 4105773371280202736, 1730402370394168860],
    [16369567958271978968, 12146380218717819755, 12009693595230883568, 227308874397590621],
    [5818422404476429090, 8744583814015146420, 10030422840601379789, 2278431200400644337],
    [510494799737150569, 11139959025694059654, 5758288208583844020, 1384279239458126879],
    [2914594975671435517, 16234885245611727528, 3218300809916998993, 2409388676151004593],
    [360468636199605981, 1731208332354934098, 11078579539768602268, 2355002080264805399],
    [18256164559308217458, 8723059580733449863, 5640252529855781237, 3213445872728894070],
    [2288143810931128838, 8658750921744204564, 12263666866913800504, 889971557620220184],
    [10031979597479136061, 1932176732084253986, 2951790372874857794, 2372597250210491701],
    [6726383792698232286, 4769126262844903556, 13492489651911080061, 2606041337524937853],
    [10749971307338414459, 6235111160896445497, 10049420958564331007, 3002797731949008925],
    [820275093727458338, 12723126409932340186, 15751818572908625568, 251583495308111196],
    [6209163912060914322, 17205020556242084035, 11537428759399988577, 2713586449788486026],
    [17234457327542180559, 14609262755619074529, 13794980417211395056, 2061512967257285063],
    [18354094168891002401, 15334338272148868601, 8282645911783986692, 333488429129282548],
    [9138789206489501052, 11162706991783472463, 5040708168036752787, 950275142826253470],
    [9716852356419274527, 5780034236407942316, 15444535878469547581, 266792092406988097],
    [13177341809759995269, 6387876285151958310, 14654929474737788000, 959251228245914048],
    [1588333615237852016, 1848601326751209291, 11093259755177563939, 1038505446125100908],
    [2123147774107086174, 14194155458366699136, 5283907366799468571, 2416794322354303705],
    [3933396927748386526, 17137095733235999422, 10301360140818021146, 2453191158725237202],
    [8500558006841253245, 16439683439536710249, 8065437408897910761, 425307846700418003],
    [9136510378972463453, 1871444833377380110, 3261648524955037271, 498247200016447560],
    [9533728952132677652, 1916761650967051948, 370445297584852720, 1048955959285239087],
    [1669830890290048790, 5560140858210763140, 16200870326280136917, 2976418350932814766],
    [11677244101796003558, 6920378274710308695, 12891870696157048324, 1978952551735717923],
    [15615929487046729932, 5790660615832200508, 933200424314333787, 1552483901212909626],
    [8879353331546716440, 10853979575978890283, 416877169109639547, 966099055814392553],
    [7129758431375081145, 1633635197708757608, 18229627287880232718, 137090990964927537],
    [3420696728020857642, 2016529199587965489, 17778043211367569458, 1562696902361280793],
    [11514307942408986838, 16507048516248777490, 7460803061626082803, 1047677004566531086],
    [14856650101021563385, 1862030278070320379, 9709669409545121440, 406489137034981373],
    [6083456483352735233, 7259984679353597386, 16472953988974604519, 2077957403659302557],
    [12652515230935085549, 5447752894442534745, 12125180771501403003, 855339270882531905],
    [15733183465190229554, 12246241525449701744, 11617859901711857946, 1656813835761344320],
    [3408998540335235686, 13421171756234182487, 16683052376886581348, 981274757651160910],
    [3688164149518525164, 12915383043666286452, 15166249323234243585, 3130653606117048643],
    [17891651531451867430, 4057735532303787686, 9428552200228172562, 2384956202881109613],
    [16712332985371896824, 4626586544473832146, 13490608091054025446, 3259784589300743102],
    [12227900380331304079, 6514451048958943332, 1428371465037738187, 799214470051128611],
    [17043762439290379889, 11942186207428119243, 11247105905858249116, 2758666023658992653],
    [16265441462639836462, 5839332306846272843, 12673307985972625256, 2378889859467759536],
    [14001040191275159394, 8698360872404102834, 12860338425490378321, 2550935944941989810],
    [8462947951228253173, 9964079496303521390, 842112013259982080, 774824452502346442],
    [8016181969986354367, 9355001590050126068, 17828474401148384600, 1510082434366582943],
    [17450411379380179699, 4155194167138866314, 14500264313077039714, 2792647866946924911],
    [6877968102958996507, 1601962230632115101, 10026451605932132431, 2018768589236426666],
    [14957956874691628440, 5409038124773530248, 12703255801567305424, 2141540441201630948],
    [9956936925957567056, 15753126684649274646, 8208801264648383010, 1488992409733604940],
    [17732181047161701806, 15582036699741744022, 5911686580648947596, 1867135498931120673],
    [12731153338850247825, 9797137708510547027, 12281397555359029442, 2821931452715269268],
    [996894323202333967, 7013304898535923427, 1091930912689012348, 1698000289690193925],
    [5635434980192661367, 17558639574797616157, 16701281002757097343, 3046079941765326864],
    [4532890518231555142, 13532136583487727503, 8636972539340396509, 929999923048840053],
    [10508267377090316944, 15238425135728889952, 17122731603963100753, 1744845595873241497],
    [2514869869460310998, 17933605469261343462, 15609740647055573826, 2576896770746064841],
    [8837758584466376457, 17645533571302042017, 1941143223216639176, 2493411852963789219],
    [7081221846736007564, 16275533631808603916, 13519148118072627679, 2864793822023791876],
    [12487604863151397485, 1322477372399983060, 9453162344586444723, 2479554729727663413],
    [5172773833537628576, 8126706000514055765, 2432814424100232737, 3264053059313246165],
    [16506305878545370497, 5105424009132487551, 11886015791783291413, 3320898206065672708],
    [4419713133957137312, 14518139649483974009, 17840070523377759818, 2112351273824425196],
    [12934050596881394227, 2591656307025016705, 8138560135710311191, 3119823610724696911],
    [10706857639217567037, 416819365240840919, 16914637351028956398, 133564383143585177],
    [13684632837625189594, 14382068773689590206, 11982469515080027488, 798379312815986743],
    [14686080834420609088, 9493583465100838001, 14199707352773928391, 1809934468635050250],
    [18301487766366008087, 5655563631929033237, 5713878437993954504, 100915410546222293],
    [15729851265305692438, 17599535978393774504, 15348597891683276001, 3429885989318841382],
    [11030014331088028334, 17119231794674195613, 12233995797404396558, 104921246194296006],
    [16845626571349454398, 2364557693396769172, 1547170777692458480, 1146976156626477552],
    [10514470246554804099, 2981930661199569224, 3272826336938108907, 1066531127887770388],
    [8093719849697137320, 2268351200451236919, 577965350700841004, 2574012982124930843],
    [3652821282967357187, 850226514120106473, 9252784495544850922, 2984806019709891418],
    [17513903498730325684, 9441725236820885951, 11649196358562921754, 1008383677053782162],
    [5672326557453125470, 6161674271757759012, 2760355597574014900, 1124915577339363237],
    [11323831703074381232, 11282746210773556889, 16223183932732661255, 1425225034174472879],
    [7992386114977428147, 16714878242411735084, 18053018762687620448, 635369522019999067],
    [13474502821178697610, 10739821023661314951, 16084085772110355837, 3152469842125335510],
    [536356368683924005, 12603527947785093699, 6245640413739191170, 2354777714311564140],
    [5967250365701660753, 14683492838502713362, 5115749742525593895, 2300379238113314625],
    [4360222776449783471, 1442977108242392712, 12128180673525254090, 1188831746871253762],
    [5030314270325174413, 9058868721850822051, 13964072567638645138, 2325100218921666098],
    [6252017075160097330, 2023751596912021759, 6926617669492604639, 1640537795592231896],
    [7556563232775405386, 15188576510131836583, 4194917990835526428, 674126839362414527],
    [17982574187354743755, 13016733437632285788, 2324042990932218638, 1696089959855769354],
    [16998618878951915242, 7267596706707390364, 4894039605574813086, 1937850296956814701],
    [17218930277360554514, 8191733500975235391, 17151304117725017879, 2339732467227966200],
    [8145307631399401013, 1658103220291489492, 6214916758067288550, 314168113101570255],
    [15972624699912690536, 178173234320202356, 6886489512529512595, 413601837297576426],
    [11010701338214729894, 4454722749682157972, 16859400426896903101, 3145223912407673967],
    [4593484673176041190, 12333360239809053176, 18394532672821681246, 487123347713496805],
    [15280514714611889425, 3126770094030887304, 15801694529651195178, 809032617408803492],
    [8221811510415985996, 3714493309594520036, 14835613706565504777, 2229383263185290397],
    [12807354869310299211, 13847340619179483256, 9805094743054916842, 1389001446503322175],
    [4824975342843618662, 12737447239298916898, 15719976814749507640, 450850912895089338],
    [4388667402988536040, 4441764394603221391, 6296940232102219170, 1011824979796644888],
    [16383993217618161248, 17616351343756192216, 12597710721732878616, 370682382288647368],
    [11776548026364730414, 12490544565973405328, 9428429500079023762, 3286715586057950930],
    [7452761284516716919, 10935847058856455285, 5866740860731268, 2345223204696551074],
    [12893509130675234677, 858146574723659272, 2202616093124017171, 725146030800758265],
    [2335540022209918161, 493712674621506451, 876248458353544002, 2648768502683906768],
    [15988597475575130918, 5603948964940419936, 14446554877335781675, 337595277602333323],
    [14266636282861406932, 13461992109154616466, 2267117054591593520, 3377036443507340972],
    [13804427035416015264, 10580502412445944362, 2509079003108684449, 2640653961312801745],
    [11746861177118757772, 7817615742427296182, 17393788546072243903, 3132369150332650654],
    [7094476908652487551, 6219354615625218515, 12155103280560176401, 2288614607390136719],
    [16140204817618850551, 11255564900314217716, 16727717361403935527, 1666757404280927699],
    [11327737537975134923, 6527410180917918288, 12783017265344911510, 458149742847630877],
    [1302839511641252501, 8351477956148615940, 10756848029776186570, 1491932835433298662],
    [8174613607946468625, 17977145249834849856, 13399309684902170173, 1626174818070752877],
    [7844307424304165378, 13605791762029028230, 9441718044034086037, 2324831626703859482],
    [6490079365723217394, 15758657274220347222, 9094157416177557833, 2687586476509474311],
    [7359263309865467003, 17494583197859381757, 9337647141503572030, 1657315984972494574],
    [1207267921719383016, 9735347848868819378, 16316769178886547971, 2149340674080995217],
    [11489607976242007662, 6383025683684020816, 8201309688322962734, 1869922042864610094],
    [8121248840106835437, 9022905210068329687, 6606709576060330035, 1032229808482090467],
    [5081189481516331788, 2133551576005205844, 7636940812025586380, 172678588829525775],
    [7010975221616635741, 8420406439257928005, 6123734639653454213, 2812383487105112804],
    [2874074824194311472, 12921499560362155388, 3621182140106766338, 2299176425110628556],
    [16631307971593962387, 13617866096542595664, 2805036897460780361, 1241603543992462103],
    [3431624593404656728, 13500229385435341314, 9677764225381673508, 312208648610420086],
    [4066210566476759101, 10754180611086924234, 4325148828603010988, 2195698237485043628],
    [14941839665470027175, 6546422967155942765, 11439052010598915847, 3039358028950594561],
    [8433351069092128667, 17415643003854751122, 4512695636712071017, 2529225487664888921],
    [15760102428097250388, 6943726065227236058, 11560601601534029218, 1230313882362097006],
    [17246968204600831191, 13688951193602998031, 10896076804432729914, 3060284557665492269],
    [2646775718168977991, 18273746349449587912, 12932078543282516386, 1049071305649240175],
    [14315165547145061885, 15796583947347524974, 18060470625800882831, 3314544646545383957],
    [307559755302373757, 12349828878222798528, 17899950554599191908, 252488381840628758],
    [1534102734683283806, 14565934435220573721, 404854769585698397, 3322553028989571021],
    [17641339531804969307, 9911237362641548230, 4189254715597590553, 2241385725208712982],
    [1972482189858280488, 13382485520274557709, 3754058397161694339, 163770147056729387],
    [7128084178573177012, 14773510605321787915, 18180645816242780243, 2862208171829643660],
    [7255889465673037898, 1162484116098509375, 6533752449910104278, 2051333307433000427],
    [2760870141096433459, 13264124432097846129, 12041728816969912087, 1388423245921813348],
    [14481313991466890040, 5065317252422194716, 9039469598356698766, 679841071468634808],
    [1184437501240541300, 8105468816075752962, 5202304794510757893, 3068704163157187430],
    [13368935800080592253, 17982505185917680217, 1070083160207888570, 730887143125805662],
    [4516606967909558475, 13502451702862971962, 8201609210293886715, 2232722403884260149],
    [17162223327156010051, 489644185915439703, 16960861469202296131, 182271649955444748],
    [15613700779769583269, 15081163382251808925, 7550899597705238018, 1506194665419845292],
    [7779654096374063095, 6635577553010413073, 5506724465570278029, 2073055050092266538],
    [14924490490735358645, 17177437583259154428, 12201282534529994255, 2266113210904897959],
    [7086188081679963996, 15429830609261644185, 152039691297810528, 1514355321922723792],
    [6140521944738348742, 13774140650701049749, 7838257916720277242, 1118232017405892418],
    [16602079978071351731, 13777664149861211758, 4623233875001246698, 2747504141951246088],
    [983410335725829830, 2325481332293476704, 16952479932560841571, 2295421450248303751],
    [17460732445289162243, 7474248304380234304, 4316973156946775057, 1910308836821644220],
    [8744350544459488235, 8338046085353673971, 685543522049112733, 2785530062411298301],
    [5941152086828100663, 17472554908100812984, 2349858698940794428, 2063129185470467436],
    [16016120505842746113, 11565911609053033, 15940278751099413800, 210837041427009177],
    [14937653827865212387, 7596504544874792028, 4266430051196628227, 1408493253475948959],
    [12582608398289359581, 7992870596390889428, 17060826593171083817, 1497728682773739826],
    [15688100039458656213, 8037515389405663602, 18185231807983287004, 3355126874247319027],
    [9057210102995983412, 18231940617187917927, 8244876803868153923, 607289700183572037],
    [434722191509498835, 17831976798069093077, 1187321002564998249, 559891844725616956],
    [16672565635016517865, 9171741518359227700, 12647540294095551463, 1119954974431724143],
    [10448759937534610381, 2271026493669139018, 8648316152444992460, 839263884479940550],
    [6121409555468844321, 17920913716146432539, 7875115270285834602, 1322375470999553736],
    [13933718139976637813, 7720505510297105375, 5287694918029837161, 2939280523058940636],
    [4738090120369903662, 13101702484985413397, 2404644152670090717, 2117651936988473874],
    [8165069952668594397, 17873354522219065189, 12396243516685649184, 3347673388943551867],
    [15874432154005063755, 12645608145556849508, 729852553152562532, 513171848081937210],
    [16417306082174628648, 18221782861321417353, 11392314241228785818, 3458023065698316953],
    [14386674417680989559, 17672128972050526892, 1719734021716327059, 2148586347405677589],
    [332934642775819735, 10873289177193044978, 2885860430527075709, 2814768639134125666],
    [5451786234129814122, 4065514003777995637, 12940764749045920594, 2418890269286485773],
    [3979592425446111444, 106417730179593621, 9015339682219220363, 505099529917641095],
    [12266735008756946006, 10614652355640885069, 14833514620841257216, 1102276587733429697],
    [3559074551190063926, 7934488585106479138, 9979021197469681295, 637690803559287061],
    [9585903198920464488, 9031533298008863591, 7318306867514840720, 176457615315858649],
    [6861604246879618341, 14358205450556641247, 16100376191601523544, 1893493024637636445],
    [5429052546486480300, 11645895292036094442, 8795202226010471149, 2450006074388215044],
    [1744344075193610473, 13813147133439150694, 3359913631136231075, 2618641323821517424],
    [4843852370255386520, 7710796466706994323, 4696955174491594180, 1214114680342579335],
    [7933697835318405478, 7471969192653558969, 9074169420945120960, 3379889827039770888],
    [15901992499053247110, 8436288609162890394, 7585901587883796721, 505140958372162847],
    [3119206941656263676, 8898246426604308344, 12441653120581693096, 2562432588428611785],
    [887334669931109661, 5119255969151008141, 10572942541991849104, 812484582582005716],
    [14108564830907411174, 11128891579695710623, 6502524962696131888, 970083658596675554],
    [6843285442347062766, 17829879627112561270, 645692705559036785, 504759087586954353],
    [9138042128668523868, 11529398424949352830, 12472947281732916381, 1657524198217502914],
    [17775408706428412744, 11564038792407032908, 8547980429604470479, 677409970299457686],
    [14256847034485509108, 15341650558826535840, 11021787335407700541, 990508845032469077],
    [4748946338928426912, 14592667299201471219, 42441640486531108, 1616095413356058470],
    [6857198813129387716, 1016538918155011252, 4134956971999129901, 2672186805663911602],
    [9423039398939878010, 17551481111124081469, 9423215891386436213, 1175337193968724320],
    [13576909021877093817, 11105937302876497490, 11768166992839273861, 3356162453631178597],
    [9144883132685717675, 11663105242668537521, 632017021684301726, 3106815205379704885],
    [16817354939250232734, 2468404425835692452, 497809146793524240, 429592713961052712],
    [17255017072489960195, 4394987530892840617, 5830137025604291352, 3372406748330521210],
    [17861325281278365630, 13623439999845300642, 495374917469215233, 1390702046573621885],
    [11551622322451645724, 12859322290444100546, 11035704895955993446, 452923984644900105],
    [13925562732853665996, 12937226904683614200, 3940495393321490137, 1828393665791152521],
    [11322677706218693254, 17379112700529222527, 5662158600928028909, 2438986363193315182],
    [1667485351049109951, 8858941139349650717, 18369332696814371756, 840642004754046723],
    [8447968859679878459, 5589956145170422236, 8596587835133756568, 2690922257039977980],
    [4679729882220556454, 13220776606317126050, 5580586672269362070, 2657139378582320706],
    [14737874927135968378, 11994625700327170902, 11325906621706002659, 593710254501322855],
    [11022597737317117713, 8121928569623533330, 11740091575485146919, 49350760910242620],
    [4065430027896819759, 16855642488423515903, 18050106166057113321, 974485258829080888],
    [11568611874755638607, 16331493802573533737, 3533224643506851133, 2463164479075629037],
    [13129630228887827514, 16327511903384096747, 2507100885622290656, 2786347765103314739],
    [4828019341037368978, 15821366319214007327, 16736482558060147236, 110799094907292319],
    [8388215992194700637, 4583698649079105609, 7352712500339430177, 914537420930357389],
    [9977753326634211691, 2288851619276793489, 17114008811713462801, 465865806784029468],
    [1400582761334318383, 524928510878560701, 18253349342610755719, 2321729433913574305],
    [4697501971444641513, 14189819539131293490, 13555840110273758628, 1238572666362233956],
    [16053070116173484780, 2990029565424596570, 8780398862607438687, 2727178800579717843],
    [9437237922683357287, 12833933327395891945, 11182476905495571154, 167319690913602546],
    [18136912820640251460, 17045954950362164536, 7908753014984631870, 2142004676515654642],
    [6583408232467937144, 7350058955003404842, 5332353138605399867, 2923218649352385848],
    [11396570185633454885, 8362903301490608471, 5904853205197263712, 741120981099095967],
    [17999199687537508359, 14124601493396151346, 7089860008865857890, 21014510085154026],
    [17196533453599962908, 1655506762737646493, 15007564960891507892, 3418217565214151802],
    [8322206716734812555, 17822510634204829561, 6528453195939615988, 2663022638419300160],
    [10759964421357026320, 12088865865755567365, 9169185411558672342, 3201470561105437119],
    [8817923482264405278, 16165350157537877072, 18127514004385604547, 598535983203475763],
    [7410775886208615600, 762532939280050462, 15396438437913870183, 1740242646686912571],
    [3300929429684641285, 7394218143948584571, 11164643589169698023, 1586167870025015979],
    [17920245322903742727, 11862862491308092319, 841931964035693059, 3229434161319084982],
    [16775742591723855907, 425364982117191303, 9526045869232979582, 2232928268083594015],
    [14390505679360079661, 11482948389116994235, 17083893907195827177, 1393412412054558726],
    [16024633838794412157, 8818224039418705098, 4679515195136541737, 1431317017596987672],
    [10884648788727458797, 1415661533535149279, 8410850739393002079, 445984826775404658],
    [533876776156760640, 8076048953238040258, 10498119464701124369, 3238291843221297311],
    [4236637609609477373, 7426341294716457965, 11868173118573325840, 2599909629216020933],
    [11062906074593470049, 6480243246198742187, 16030063944935148399, 242129305579291512],
    [8569308321613627653, 52802243314375648, 11926831916530944280, 2622391454581735780],
    [9747226721285462928, 9759570374251377323, 13544720261199177365, 2954132748430862132],
    [17379939974842855119, 17214966949115706059, 14552234464773356181, 1383696251819803806],
    [16177118810574592402, 13995198309914640879, 17016240004741119871, 1922757760373919142],
    [10428223804562150989, 12410609614467872743, 17829824597247433747, 1909905478338478003],
    [10780808459126451392, 9420258559662094004, 1133859693509079680, 2772611869914205477],
    [124349583716684674, 13377527362937072702, 7298180997885835091, 1804022472660910798],
    [8456546049464716773, 4344974185074556834, 9602917087968028404, 3223596789026591772],
    [2548395303339261869, 17016676951652735796, 2369152849139511846, 1090593315769558767],
    [15162935196421390490, 7622710452633306903, 12845862291576427086, 619664480792099591],
    [6505400857099304217, 7282583610295179114, 5432105512388658882, 2887466684040626848],
    [10238903854149518817, 16610257213460370450, 10282425286055727759, 2012333833131806675],
    [339729703168487048, 11177656572775411949, 14040113470588479111, 2616807034608292753],
    [3867802576884211732, 525521430958553301, 6468753849986230215, 1426453704968444536],
    [11014736189216698627, 2565205101003653763, 15998158694931015144, 3045697423028101974],
    [2186006653292914535, 7033549957449245952, 11062464111857492528, 289267982760721786],
    [10881477449448660973, 12599801672883600758, 2638721054922763755, 140090208678296139],
    [14836545421148599874, 3454414929665900175, 10973350648763759758, 1035331299804312413],
    [15396821750662349390, 10664003491342776586, 15605520983944234957, 964819692440498330],
    [15711744226663822598, 17207928674637489737, 7608845696402625230, 791352521648833249],
    [12568939595814336647, 8641224330548267128, 3483468945303229175, 727561698574416644],
    [13091735797126814875, 11976145414676054392, 2560751196366253932, 234617469238811520],
    [12756784926618123425, 5142472865216313263, 16496034315407468861, 2194647745859296671],
    [835426204254953709, 15144507082230378367, 2867455974823398954, 1410697814862906071],
    [4144046133725926755, 14975629759294383980, 1350943850222629350, 2996768997345823083],
    [9942845035390550258, 8582747571831302410, 5992752652212937713, 1225304039843634897],
    [5147391107670732918, 5035034572469231162, 14960548730102081083, 1151026932332479482],
    [1406015041751513617, 11849854007325491320, 11731998811223111074, 677889130983881014],
    [17935024541106069919, 4432623323625421682, 8821863036140178659, 3312777228596507888],
    [8410265752013888301, 17738388172046896809, 8581570246036570289, 1401115423856881569],
    [14210865511395314678, 1227818178132976159, 4024078397483464079, 449787711447557721],
    [10093771167942138211, 4625759298571069132, 8483074167120218268, 474070085881013535],
    [2172359059536958762, 14130682857809431803, 17595776094712602666, 2705083385924349318],
    [11804838319035174655, 6095328591323511314, 16618998617740295494, 1627044207217196448],
    [14770380624450793444, 5685985075320307050, 16902998000954625476, 2488862757313834645],
    [16948276386029444144, 64231719357448545, 2625229067874997943, 3014424137586530835],
    [17820864359098815860, 16446775322161065821, 7255097540985915284, 485318833232394851],
    [2996536716970465740, 4925105009711632688, 6090534855204791890, 411505344835870742],
    [12848804286136986491, 3438258161776515147, 14335892077201133957, 2489944595804783288],
    [367045936522879691, 12359535192859683908, 13378608300942282515, 1936232981487795463],
    [14292116347320813776, 10504940517355351408, 972327503792038832, 1146414805106971623],
    [16287805796706842478, 17085845166707488257, 14610999777711993348, 1725691986157365593],
    [6972625628554909567, 17195256386328822941, 18263492627570817906, 1035471181202305772],
    [10069584257132659878, 9120153373530472817, 14085218553207591805, 1258473936641495823],
    [13921842881977303818, 4264524401195394554, 17304848421509851077, 2029045537760541787],
    [16301731972217916207, 13334582499725564530, 3793430918604381942, 618972667835723252],
    [11706767347502575327, 2465753917753263864, 12365210853785028960, 608035942156683348],
    [4882227677770416694, 8637859264638373804, 3797915799243618571, 3266655506905741977],
    [17782166096678160217, 10514940930431841483, 2673555012799060962, 1980582959533085829],
    [4922641942141986784, 6512571590931736589, 7182382855684027407, 878196004725202808],
    [6016730358701447851, 15885782943938827159, 10865435530416140592, 1636178262697184708],
    [6448787583512662304, 3533235781068344688, 3170673370443152280, 2848650082757290214],
    [10226572161513752610, 1287869022454740324, 3672097970331796802, 1355731862893402453],
    [9066288324852467211, 3836733432800378018, 6348074775866925877, 1442589333909172321],
    [14304700153125389688, 7016155260235136337, 2543490535937716435, 1348352273453487936],
    [15712909718235614278, 17094832111251398792, 11821492328490740325, 2142156254071869379],
    [16806835098714044257, 11913018296551861860, 17835403169301113867, 3259725317283944477],
    [11310135142453781305, 10850055585255089142, 5030244791713851971, 2194075884217191045],
    [10428247246902403943, 7980556256909715129, 7185739120517854257, 233593627651293887],
    [10038687926011057036, 5490613293526529757, 16106909638467459751, 72966865492624145],
    [1284451766527027551, 17783367796098655736, 1220466812594806635, 226412027037571626],
    [15553388520447074611, 1565947289085962916, 10869172908343939131, 1748373603675709100],
    [1503699967206030002, 13358135121581128444, 7340874981184866072, 2640330981131680646],
    [17774045941090272377, 11468317916698910352, 13085052845683559502, 1580193670587206863],
    [17843072173104629128, 10726870731244787164, 13082393728447249438, 2640714065778532996],
    [15943627028426281999, 2630086131278723615, 12548012950188734519, 2388710457908114410],
    [10018989428411082727, 15105228921404465936, 16837106847519422099, 2231696301057475432],
    [2926698738244457154, 9261730350434195479, 14027820941478983482, 170315252444969386],
    [6127706914206843031, 7938803137475502732, 11748302576129540768, 707495092785323622],
    [13831881609559165443, 13839558570629647374, 1993294779734211008, 1217271818850345969],
    [17373878386657574183, 10148202769927670842, 8405553544515199747, 1300853363381162910],
    [10253971518371782872, 3869309743590233547, 5050191827569362212, 1190817025153348490],
    [13548777555338140546, 1118358006277453128, 4111195840616572954, 1458503213181053333],
    [17280649336918992313, 10983567183773998020, 8045861266900455512, 285555317648815128],
    [12183501672832558325, 10968752383982859914, 16075887182335768405, 3228097974092526550],
    [7905075403349081073, 17779298250397877439, 5288354532240154520, 1641434521862765278],
    [1686133675198185659, 1265393443373007644, 6568674456826699447, 3237371246138936054],
    [4684582512285503246, 10573615343321440821, 9173731853991328747, 577399539397586533],
    [799462062062987720, 9551746523234197625, 817009750832041077, 2124295352272307985],
    [12623675812430562795, 520996742765884688, 16116759883298463411, 1004159132692473204],
    [17196382660624371743, 14058488825431475951, 12658439610153126886, 2124553984633622666],
    [16090188252015404571, 17501512519264086895, 3081296618270718977, 2989811874174394165],
    [10648457728299613158, 14419539508359456258, 6147480752310065996, 2811612216575538531],
    [14075444229252567196, 8159466197899284356, 18209593131688616647, 3378202429829320770],
    [4115090706428056954, 2817951453904177016, 13955352657814374209, 1458512836235445232],
    [2597267125621031751, 13362055025360123413, 9803301359714814103, 660701488525964572],
    [15979453433012841247, 13675852117183932813, 1197946546292230155, 3313446335704585894],
    [7433394199988341531, 18420329234196713956, 6615157865244001288, 1747219611445672763],
    [7873901756550323183, 16353610046906049493, 6730776749602981808, 1769564027698182654],
    [1737115494203902713, 3868908988462657159, 14951497481106038257, 268301677147550802],
    [5412873668339217659, 16727295874776701631, 2877386195534057520, 1080949952058146616],
    [599014939185532422, 4769742173783223380, 6168463746279771090, 554675217661440595],
    [8795599694293962139, 1951753260912113676, 18123307308315233062, 996583261662075571],
    [1369184790134577023, 5692893434184178248, 6985768512119662381, 1558887712998748406],
    [2058205358000019925, 17038081541051240419, 1370790370800255877, 148560023586466843],
    [3017562199794996944, 17949171067864653167, 4400698052989470672, 1436982561860600897],
    [16128223881478516172, 17054882562008426001, 11524765106437495046, 1540836916922110417],
    [3184711476293771803, 4142950762346016545, 5360640753343150934, 3034207946125223793],
    [6011664941131341647, 6931812119743173831, 18102578631982556666, 748278703108405014],
    [14604661827933560376, 13695686295642809527, 10058556343398587774, 132963161425950800],
    [8829754641928361746, 10846919590879227489, 9620975393526632599, 3192160715674524689],
    [16963615858689721200, 16252774345643286775, 16158882183401073978, 2826967421326069558],
    [3699944626379790014, 13546505733723811537, 7093415217361809441, 2541698989256146184],
    [17431795326863170454, 1306043085870725304, 14150999554708389795, 1505086339799527223],
    [10906049767863632892, 1937819486270232651, 15300291119352323932, 2809913018727405743],
    [1734779938056575807, 16919037148032549526, 15950051749879773996, 670768081674689889],
    [2924828358059118362, 8810098071322659922, 11654063169764945778, 123450042350241374],
    [16754832257327393693, 11691298054008759308, 9546169798476657837, 2878959413284919418],
    [11001337632194776593, 7159856987734138960, 323911948902042451, 2195747087145179872],
    [14987671450927577237, 8905492765397951303, 17690127736573290839, 1443644626628596067],
    [10588741223294049242, 12794606098303312425, 6364653377922067680, 740258471785177573],
    [14825461588977810232, 2491596323468577551, 2724495984304085017, 39522912199831391],
    [13419627592830891095, 3537294857178249233, 7415603050988209167, 306680034460317621],
    [11621730372348103492, 11877698118036306851, 4899838356986066779, 2404036426161413809],
    [13786260724163094103, 11302909193311809948, 3695560643705370097, 240229707001456278],
    [4818987711021675343, 16087012154047387234, 2772771004147018738, 1441290457643813479],
    [12749720439182049777, 10239949009921851652, 17103094808886122775, 2104548917090414128],
    [3784931907969362164, 10071831740983974285, 2464319481359144903, 2378612228859275728],
    [871224640693184819, 9250076579129029873, 117714219267395579, 2661995188579035605],
    [5214343209166644378, 18009736496100211442, 13724164564061781857, 3463657350424067004],
    [18093152063212732589, 6610502519431190449, 9862614846091668941, 77384164993365946],
    [15121119746570349726, 17449563047247878283, 4146876317976957047, 18118132850050692],
    [3368578718489153305, 4152146611990443118, 2003165792198231111, 2758476201223317806],
    [3116401281186251322, 17380907126671223967, 12329378577897409165, 2893823826837126354],
    [9223667514557559663, 11755342071299157028, 7092472982299308282, 98636936937529844],
    [5926122837997015374, 9973149122096205222, 10008133082303589987, 1012623954354976475],
    [17393909290853377746, 14425721951947701510, 224982746692884770, 1581281032212575094],
    [17124677177933905090, 15726876438942839197, 1358439958855307671, 3263470684143225157],
    [13230637841729231927, 4913438510334316747, 6508528210110266050, 3131498638338437511],
    [14688554334511248656, 16470247603892565350, 18419257993746265448, 2512981903591310260],
    [2576944912838790789, 18260776945450638954, 5037660125701887080, 1672362833991279826],
    [17449614238603548416, 293846436531505283, 15453236562909030099, 33524820886730065],
    [467432565522428407, 13398454929305108370, 2486672846603749570, 2321819728227439357],
    [7478991613898865748, 2960928962639632534, 9065049566195791051, 1998240853913097572],
    [5698902789026548957, 11161959939145549275, 15706371511371181917, 935126763160360603],
    [9046604366795588746, 12311974870805000314, 14732617317601372145, 2357841867721785576],
    [4615903939154666841, 2725129544948631912, 13696507634700123477, 1386984754792686938],
    [2546894811561922245, 3203885489885575842, 8057047825070411966, 2177840236712789179],
    [3116632327001393842, 16648345767756023229, 7602034117752357160, 1056650013900765481],
    [5101711446372844219, 9187196544475035564, 12852242137481291736, 2276994271075850653],
    [10824633678190770698, 13811642619948133541, 6995015347932945312, 2824202611966252030],
    [10133219398040348245, 16023497495887926924, 3327513565145975509, 1788063850587421265],
    [17512894184080707087, 11504487716341618016, 15586080727215050241, 2433371166752168799],
    [17078448647756383435, 12450584247483721662, 9159048973430570939, 1122746362704149364],
    [3926748152399642981, 3672594778724171710, 10128022471516442582, 538291778843672931],
    [6770391015611036578, 2914795781819546561, 13447051084155785440, 1407831875390477049],
    [10540958484355341505, 6360148161265756418, 15049016650563103676, 1890996491243272208],
    [16704992628028707216, 14600887766386376160, 3762966843937514880, 2623695144142538320],
    [16599427530266235487, 12738095387575851888, 2949376513237392678, 2069552496459973768],
    [988754864592178008, 4084009514270143525, 619532914655235095, 3268925270483203514],
    [11694852414350943133, 13524073441320615366, 3458615257382408155, 2158508246035392374],
    [15871264491514209710, 13893076544790425577, 7825122265747925963, 2427054877858746184],
    [8892824836536146138, 13473056196584773872, 3809718695948383499, 2979860737101480926],
    [1056371878120799071, 14858746490084166523, 5871660309238277542, 356049032053758685],
    [3403877299495102581, 12551736321870997875, 6695576371200693102, 886552081834606697],
    [2173430784149298969, 12488959770447641365, 86142214720755103, 177247842759699437],
    [4004270425721450596, 2871212193438467127, 6217216438314162597, 1454207668904301777],
    [8161114045257962928, 8820506023649741601, 3870821791970294544, 697153111723235138],
    [4224945064303467998, 18161835445766764165, 8145237891324264753, 2761035661960617752],
    [11709013837771963117, 705502637831119200, 11011123241982773528, 3480355427574811239],
    [8914511442214186191, 355054128188582088, 13669347636689024616, 716720521805396523],
    [5839379853995958136, 8709467856297520729, 11314187778279438709, 3470692347017547428],
    [7287321946127166157, 12591082496382524456, 7185928617302678182, 1658866809492927095],
    [11038306382184331897, 9643388017374934088, 10087285918381093677, 1714055332903577027],
    [17220680013604342247, 13840346076629341370, 16784065583276327096, 3280233128198397982],
    [18071827748202696014, 13959805762029958193, 14604809034725924452, 2496986159958228278],
    [665999122339626634, 1832725752190636597, 18276922359748013368, 3421298469027742871],
    [7600568799840761618, 18035141733175368855, 17772565115110546678, 1944801410879637998],
    [15404751955666407933, 10552090940009877214, 8749421507795330874, 1841558069723035061],
    [6192523867541490855, 879240562025980783, 1500931627357904424, 94190451967796337],
    [395989941326124818, 8595910456267156285, 12981483327364626918, 2572814857329947165],
    [14992592546887544454, 958496732869693831, 8610673278017492307, 2866642438493075149],
    [5238069114541858589, 12352670760889206302, 15293115203978275235, 2271054697692805626],
    [8667340819800791793, 18242362398260047356, 3854940974277886386, 2788634991005074193],
    [4517752780114216260, 14112469674704846181, 13211804198534080285, 3228076500820903417],
    [2578300639637510362, 9380414293239299155, 8494235153646426270, 1981507333322552814],
    [8613103838124859825, 15644657206382947235, 624976658687226727, 1750313133727455599],
    [15169211602963128492, 17918397339595103361, 2915206744128079657, 2562925782860139953],
    [5247515707873771608, 3697708111967297409, 5700809422000167160, 503665643382663930],
    [17348042723383387928, 17568040214075464187, 10258714482259639937, 2220015438984097167],
    [3275845266168163175, 3137620575268059956, 5300301272986031187, 504007819146203011],
    [1377664386481705395, 1069017238644343049, 4541694368831726183, 340261961866746133],
    [4562879212181096856, 8235354706849785332, 9653492923315729211, 3106429297241872859],
    [1670992902529511511, 6614108359441723160, 10479927307926275138, 2850692932353986816],
    [11855076853388223924, 14781822701556417608, 18253697180031141076, 1693054651302357214],
    [10196524818157887827, 6634382929638604475, 13426045346830205177, 945780474998805516],
    [8361685957808582153, 12993786797057168732, 15664101787522612139, 266306433044343493],
    [8979194981252533477, 15010749711874318909, 3820455356172084489, 516315363041965558],
    [17228055795644156904, 7680363124527750111, 76925266120348411, 219845255295680052],
    [13067175901635519386, 1339650435248876371, 12339239005507404415, 2646493666181597187],
    [11808434869401975368, 17861764117188094449, 7531672184385433633, 1432247332532763348],
    [12348776294366109229, 1210852659849640735, 16206370664237838956, 1241357316092173955],
    [7764132829091626263, 13213096819597441281, 9894776281183770256, 543505953558470702],
    [10270021906947204073, 5504937697297276670, 11246304107989397940, 3304863530604810564],
    [7521569904983152812, 6507539809110980982, 11381766321615475544, 2454372971089231613],
    [4873496255484364830, 658552716974291614, 6910323924673959976, 1060213890872780550],
    [12989525225262062218, 5880395042464806188, 5232478121004076862, 858293682812316870],
    [3733944248737263578, 2471261043271543006, 4835484155107538591, 1812085624077790217],
    [4456022540093414807, 260926671927996622, 13360573872688693392, 738758054260626507],
    [1181491479504519869, 9009779159679792663, 1178631703927005354, 1858249971501410835],
    [807273897149972603, 12703441529651844336, 9892267493926237190, 2020546163568072363],
    [5738428302260857602, 18430534788024019570, 18390647619835473100, 2107892711635707004],
    [8930440643402905190, 8828912845509883884, 7435840639115185149, 2949626084105106687],
    [12102378619831748899, 2906634805880017562, 10699802805205899304, 1958324127506563400],
    [4378378185244581567, 4834672751622350437, 9207724807522863908, 1054025374247835104],
    [14640021377385676866, 16684523951501662620, 8220368925196616670, 1488892386682597479],
    [3715348932734462182, 13942296099337582546, 4916874723590628845, 2951847216698550466],
    [12524852839205912981, 15912594865478783294, 17238612999271800753, 1467873999389207964],
    [2905050130950136176, 3963789598264884426, 18133966164539656656, 2556305836848474582],
    [13008429647256903197, 7894375102088114714, 7801444401128722850, 3247885122940098030],
    [7927422141529362245, 6456080529397334948, 15847015409071379640, 3291469407328882036],
    [18422715331255849305, 2945306890407084434, 17977894382060740919, 3324562958350217457],
    [15512603619200019794, 18335447425148666268, 3688792368468143413, 2814002718204004877],
    [5820776527937462502, 15701924868988521139, 14845725911581741948, 3018690574647822329],
    [1499366333454729072, 17541614534285015909, 3236046937423451994, 2095815424191918654],
    [2465693618420638674, 8561408782423467402, 589293158898494662, 1849102212565210775],
    [13894292868002181457, 8841749588150171080, 8886118663575361505, 1244920723116843492],
    [16026207996622650180, 3939241280014302609, 11139537950338505525, 180605488599644206],
    [399345599202432235, 9634017552631049817, 2049181111882755129, 2817288363253295070],
    [108016721032657025, 7118270765949735489, 17140670357392915569, 1947790313981873020],
    [4387560890162174699, 15526490640154140922, 4252057442711743612, 3156221801893672423],
    [17292698873737803110, 1459261914679542228, 17941457248242119934, 1377861692223284175],
    [17396993094312580806, 14950040275060757374, 3056339431564294569, 2162790105361399736],
    [10424258244041624370, 12297778369894525449, 10177163821566049563, 3066159800723315329],
    [15300419284493525924, 11999233691371800658, 12698125181031573137, 104922057007763566],
    [10800592749428850143, 9865944704667809113, 15053756378691944996, 2754477869339191177],
    [10550073393559567645, 8501502553822949443, 7186187084855181428, 871179797293896279],
    [10642475247574772777, 1672650015231417977, 11169218335624425097, 3436977914330194291],
    [17107129412933858803, 12614655752100301655, 2409321060726780518, 2704640154960004866],
    [9243354644642918426, 7998942144101740336, 16792976736392930794, 2506531670666398621],
    [14707031995105301575, 15932839015680970035, 5644091326088292880, 107223316464445452],
    [14351191441574728497, 13692242840087348363, 11411668475110473540, 2134435950254913103],
    [16289455104592718021, 17786675410535890577, 13643874876624174009, 1999434496125859430],
    [6690314535779372491, 13913788702519784940, 2628217358473812664, 1497678041895499888],
    [10084848752282432869, 1627560487821896407, 17673758409973770660, 1986646599117807256],
    [1753182503442463544, 15964368986218704035, 5353454592207253823, 786164095880576240],
    [7388407049691343755, 14072540292592399153, 14444039180520997607, 1616579180642160144],
    [6728267096534443553, 14639436002495088658, 11734178268878030624, 90600345461776391],
    [7343434304652290601, 15680425822383910516, 393967036278748692, 1264964918292845178],
    [16074042760645848776, 8908199493431396660, 4412279884820859524, 2986089907259939579],
    [6137455863018438109, 5426383018544852171, 14773717551005492014, 3407640153563004735],
    [10573539586430959612, 12203828403994835262, 10389622945641136827, 185165233483829586],
    [4435708233868938306, 6434861648356624697, 15507500662209419718, 3324248814955578048],
    [6721370841278816034, 1514053934488535547, 17783664387678479384, 1170204314567378858],
    [12070159372605652624, 10095133298716702928, 1416727004820532815, 1214814611550791488],
    [12920266184630183217, 7623484879309899914, 9722427632574202734, 1252609525688926463],
    [17497357507014419696, 13646987504244312758, 10487242657668002278, 1701150731320355055],
    [402443705488808314, 16032692959288568812, 13079880662350282701, 2700626851407794772],
    [8847124150428995068, 9269200897667216035, 15069421533110092153, 1159105125908593328],
    [10694400273790763615, 8376400437803793728, 18092625377943344588, 1588309682882977055],
    [3836055121487517105, 9137359653066315714, 7559819277216612738, 449360872462745199],
    [17998121664692431490, 4955214273178131919, 14786829160611963695, 281694937815742776],
    [12867283775602014824, 14733911794821473573, 2207361757252239160, 1928657202316736196],
    [16410958782870533450, 10593662436789718040, 12696350605103516175, 1773698216029744497],
    [11914040024390353354, 5870096086348200174, 18229375683238906421, 2713720549012245469],
    [4677334912346202854, 13753595902030836352, 5907927546793409504, 1249970403357212005],
    [14784233009814593262, 8618599940361757508, 4496343100287724138, 2947523960131753491],
    [14516731157012444928, 16533057454826840870, 17352102910602254271, 199101214471816110],
    [7460336620503143369, 6764018853554342408, 1138596453514123159, 2039204855651017460],
    [13972594470611629450, 1946722854131830761, 2240779872356542154, 3370707919567440962],
    [18446568556056575434, 4184154563179076909, 9752864711587380714, 548932414530431019],
    [15548399739634063409, 13262435759781846597, 4430418627894737167, 174752065741391619],
    [12642205030787650641, 8037895137273482733, 3961261982203382806, 413506268767838631],
    [13812124388632937072, 13346757361611040958, 8875694290418018522, 2729584644745367059],
    [9144075528896714447, 15170853567364586980, 10369149625165290469, 808404076683374401],
    [4507735243019756223, 466432216995585657, 11762910073098624904, 1963778701743074945],
    [66080193144633397, 8526514276655311674, 13944663325448419494, 1960253108399745831],
    [6017881596070430858, 367949855907101155, 8893478118024585900, 2714519858474758849],
    [14224457193495638872, 5389146598804862591, 2935776040541328958, 2730303510575840948],
    [624612345443002791, 12652362464915421502, 1947639855703718574, 265596605987734327],
    [42852732129991697, 288069022980737830, 716619223726035603, 2533917399878621595],
    [14347583540797948392, 16217990316045131981, 11846750962420160558, 926986753899991021],
    [1374387313446954137, 15274630931468366580, 16285155449486457476, 1982173830402756410],
    [9003601107568495870, 16802465472332413919, 3040892025705609460, 1406847370906550676],
    [10061425924319748277, 4471486494506429766, 13403669465364598527, 298756543601000718],
    [1837693722070772102, 12229600306946451628, 14491600052840504277, 2848609082941959872],
    [1995435143015665484, 5529047304577652685, 3095296216910256556, 1065126810524088468],
    [16856379594792202277, 9227678565216590902, 2172566019817618657, 762218609201039623],
    [4856576206014694703, 5470317018159458695, 14581753776925674063, 570204040840115839],
    [16073372249996761913, 11269592909992233764, 17554978710763326164, 681697716376239676],
    [8889810754680230992, 8372192892027002477, 1775037085598449885, 181255603321664932],
    [304339564022453112, 2811734798904679015, 6141908797110494387, 3141710713096449024],
    [9164473790380588189, 1331484990306737493, 13390828229062869577, 273846826745712356],
    [12440490619948257402, 6823907958270568923, 18270528806137903415, 3167383020032354071],
    [9370284227675907533, 4137315241946349268, 6308173213233189539, 1939157246269755598],
    [4252441336424208497, 8358056157556533437, 9422309421403594126, 2838626639150237539],
    [14940057475833357167, 7951973920737320403, 12673220147802402121, 1517594437288907885],
    [5087270520714972111, 12223794635671382416, 9498519099672838357, 609916847479663265],
    [7870151202622205013, 9897396387960701150, 16481413274028480103, 2427025326978215529],
    [13836000721453028736, 8919075520443909630, 17267108374094421291, 837861352315249385],
    [5387703155707187319, 10731057034231823884, 15344649583784479227, 1198356348030649184],
    [13511286805789662780, 5291282560779107281, 13888106382013470285, 710682191286256903],
    [2792919662996321764, 16742836948829556756, 4300412448011451639, 800429763505559790],
    [5443432323775492555, 15470034178177667493, 10497563713752543771, 309752569051200265],
    [17974072661119972703, 12668334676566431123, 9045579045777827273, 2400041837272409360],
    [17187820992733581482, 6322973978265801706, 7503855328305248329, 1622654234313244811],
    [6538944550125101163, 7712762793405292029, 13749869742989591889, 100887800879839820],
    [6765350945984388527, 5801589609294572240, 9149029810231352972, 2400886576591406960],
    [16677249745208498517, 14577597930037105426, 118222878480846805, 3411161515018509271],
    [554402774039271086, 8927174698827341334, 2936371633300241278, 1255061778233342796],
    [13260637344062525833, 8484324427633462686, 4308683758956397526, 3448604061418737243],
    [17917027010293809909, 12737463949051275368, 6566883599740819157, 79536419487501205],
    [14627586325661710479, 15660534137677886099, 1062234764188030949, 2052688116809094407],
    [9896798696652300725, 708907402848466924, 10179233941664099959, 2213933879238194839],
    [8049379604891106678, 379408880556393883, 3307292297359854880, 2754875743017105567],
    [18349134800504417525, 8499718102943113499, 6316299923753646893, 542043107514753213],
    [9242046297567010202, 16878289831438391119, 17064023578508623088, 2580310616528348549],
    [1359086447420248448, 15405303407694686058, 528343503667439785, 2870159981388294734],
    [12649910238555367450, 13127205286193079068, 2345482612040857727, 1251827261289796273],
    [2708827550277551140, 11317378310060382662, 10649072375926849024, 620296644676510946],
    [7632906289841063598, 13768472579500281876, 14419820804549151472, 2110529330532394664],
    [5417570906772755112, 14894728031923559178, 4050474942335653865, 2911674185021305093],
    [17807173016281105231, 14874560797373454275, 11421262587995270659, 826768554325864787],
    [14103733997522262405, 1556604510714169640, 5145017571640298188, 1265821372569283469],
    [15629543928597161933, 3070526634557445441, 8644268319885049549, 864055933988708435],
    [7273285836950210721, 11885281862487512072, 15225314975231721373, 955070214766445760],
    [10039499402284163527, 4879662648190781833, 7480936281851568960, 2433510995953590544],
    [17197890495648356238, 10585774910301978084, 11732509181459513751, 1168865152542575787],
    [17053955360754385828, 1935118457016803444, 8162639688286590963, 107171630124917527],
    [16967845459358414040, 6478464450613759470, 15424737699294405462, 2976870445450491536],
    [7460475476249317441, 2600444573316695251, 15938892306013038652, 2234900148450731566],
    [10755297166010019525, 150163674470803536, 14991656445740477975, 9310537517017235],
    [856400501151239294, 7655929483199882026, 11354392154306972313, 3355958645369354793],
    [16113115978443752853, 1753082169722614140, 11495198857300140410, 52688643495912516],
    [3184800681380524064, 18153275051971384776, 15840736950418736068, 2670216063687386214],
    [17165148046091311142, 4168645698963608425, 5513801578704245508, 483986073484703287],
    [5182408181623345634, 9768637296489048415, 11336892800550212023, 2440822567947521119],
    [8079345744110987705, 3648352645215234121, 5922439097582083655, 2183716607851178453],
    [14686522799275581992, 5325236996504678420, 12776325538989684116, 2777853692868662137],
    [12637861149765357503, 18007113052878830755, 10127868766927317671, 1019268320464932593],
    [14885198962254142207, 10536654247844712292, 1032369505743473773, 547681374415373194],
    [5081365348441602110, 3218986338339437593, 17649162689070212205, 1134995067237440076],
    [13879253399080446404, 14046437571128721678, 2547004620546080257, 2745661868910651551],
    [13276195507294949257, 9196133390420288478, 736335451318613926, 1145381920505177351],
    [12356575931578312919, 16949280032604256487, 13082403540829712832, 1873459713659961394],
    [1952854100775405629, 11162056363134136452, 1154101697479784836, 3323731376703030581],
    [3254763446725710106, 5374547835372013988, 3214186897938718749, 3075281693779560621],
    [11874979035565529833, 10425462808122673332, 10134289366592461837, 3209369254847943856],
    [18414228334847492747, 10030338374010510979, 14420864101448931239, 1705209645943917014],
    [12445986168814354848, 508545624702572433, 9032632789555359364, 2958841517531827592],
    [12081231469974255229, 16917369809893697306, 9904562350852594310, 2742757625024644721],
    [15764735143939097543, 708559010757333865, 8651992904053000811, 183082966422857593],
    [12615200557835193504, 7091038839293730395, 5664945159117199649, 2637369835399179705],
    [7063805301622770423, 2385486748058061472, 2490484980811404178, 728081664879091911],
    [5589445635447592666, 16000787387420664024, 6441302948961448935, 2717386486938514343],
    [6048230657308617568, 16196801398316869581, 10441541253554633004, 1677222222055275933],
    [16509781081227739838, 6961051317773689965, 2676916628062832579, 2926941564273081022],
    [17521469136658244108, 11704102963183422999, 3590562098998488678, 3479102295862209819],
    [2248373665415989499, 17269541249793573314, 1868201238572116587, 251857507038485400],
    [15485538884693422410, 16918617587608639996, 10627362851239321275, 3260652165600838117],
    [3570324383324781330, 17119418687983169, 5017420214884444379, 317219597814295950],
    [18289047095529236545, 10187798505330638960, 5262527495734970145, 229366225708790709],
    [10330079760082325985, 5891235121078305400, 16473667158326401178, 2596763285771549294],
    [4493650180686685958, 996816465984962024, 518455487908628546, 3269102769095574570],
    [5793505834790542849, 16440862834059839567, 11581344042761945688, 1042338181865967370],
    [13682658275001611515, 11593699627416320204, 3346473108263637719, 210502190903552624],
    [18325517431653374990, 17457475652908900534, 1406733248991753425, 389128528529279780],
    [143041787352380125, 10292076315849495445, 6686129368352174923, 934913550212981848],
    [14426047731875043468, 6934995185514724489, 6904312125747760041, 1949356967890102285],
    [3592352330671285742, 12605850219995220766, 1358176067319646036, 1608455221142834694],
    [823517633825320904, 6367217169462117440, 7745165007713032092, 2685202158550124608],
    [13922451426269851137, 7626974197696766834, 6237913367889250544, 1777446210281586793],
    [9109045003623369643, 6393768295823176278, 9464559813694120304, 2014864952235058928],
    [7921569976701053846, 1299654152295209487, 11730974503413087050, 2317169096808481759],
    [8246891895428632754, 11357619961964871232, 12018440408361611946, 2131697810908900883],
    [15686761098589024612, 6952684969923447740, 11255618407281424269, 223914371291221859],
    [18306139475371022420, 8482363572475810877, 7172481616660177609, 1994653882262710314],
    [17061520588497123343, 5428880014597241194, 3625151035481623538, 870834423366473437],
    [12973087551573383830, 18181956024425854814, 487932182775433120, 906869628342065269],
    [18129598135825624539, 15814535662900122887, 7526653652624867469, 3250931925310941720],
    [9412559799308396692, 9111494554502689250, 16843229486467551651, 392601345559879787],
    [8643251604429637798, 16561883653434106760, 12856027862142599344, 2312240476511620798],
    [17409699347333826340, 11065943893288323735, 12505425660559132020, 2114171056889999593],
    [538261792250364850, 13998208392770396411, 3107662243340432983, 1455265006521885428],
    [6783032914998296015, 13337084139501476669, 18319384559529141737, 1110116774163075147],
    [8954898582010193212, 5698298786602717283, 5759827980702361622, 1158415859884259369],
    [11853634086970662425, 17609453012509058923, 14303545350934279504, 2913208678062876118],
    [1541674307270635293, 5354874137944057323, 6195369086212053149, 1769940685601266070],
    [4198154589607051684, 2605539241178509265, 7120198056062796569, 1313870902161342233],
    [4473462786040313318, 17260996239452057561, 8343518701703604844, 2277314953071794256],
    [7769627893503829664, 7057563146751189746, 12268625742964371543, 1170716953046787689],
    [13035566796148092538, 3446568015924082354, 4786170204662367260, 1312973018665286317],
    [5722263928098225562, 12493945318456782029, 1312540017730805971, 2328062648830712818],
    [11082518711130913681, 17420341135737289246, 604384187556793551, 1451786228204938279],
    [3735807820061332121, 10701731584773067471, 2946033030888265562, 2097311643041002884],
    [14871707612254839014, 1698213803982790653, 4398568577635471151, 2562690602487449585],
    [1749759860837456244, 12452754633785397543, 9379460294737647557, 969756559100376446],
    [10302217048868072807, 15087536298655914275, 15959026365749088663, 3267887584874563192],
    [846219205837221444, 5941106488514137868, 5475462027015967870, 3111815328241049024],
    [4694843732213876568, 14671534020353878084, 8630166555477326844, 2342750535478520543],
    [16810419328138002415, 13700134692880961403, 17806432140323108216, 2008218657088416453],
    [9502071081297748765, 18127512019234527245, 7424952698819645743, 572397380051985411],
    [2681941927489466574, 15493043704076650974, 6223409007737962969, 2436511766215131847],
    [15670603400881338678, 15926594462132222354, 10413957145718816980, 252076370621959056],
    [16284182198826119621, 6140104443300322839, 11250703135480298683, 173402553439636196],
    [9703953392524456792, 16320645720080818266, 1442868361803015091, 1415151098468509695],
    [18439351239816153328, 17542545651139732939, 8387471442807308280, 506102074250248465],
    [15142246556486266766, 2741886348396988799, 1786379701663060221, 2108040121667667652],
    [10683830846196127651, 7290902479137820222, 8558783041895235516, 357714173200112035],
    [8305273111219794077, 3253075713733687053, 11092641292256484563, 379128943197540086],
    [6946102245341222908, 16516392809280548888, 14288321145459738719, 2839873933034548257],
    [11001478682307652336, 16806403657261151172, 5167993283048579890, 1313869875586693883],
    [198132363158694689, 6960266658255149277, 4265943556443105063, 1558758233094336565],
    [8560640730326577598, 3447344284604737856, 9387380500341186673, 836744830648318700],
    [14057163401671021255, 10722398349304037537, 7451061050951333937, 2249761318679022723],
    [17701176460865113184, 10342869895200543027, 2065275221816052888, 1094976679944572939],
    [17181289085152046357, 11844342983117380461, 17899551600875298387, 1803119279837419121],
    [2736218500985180204, 7965798510090795000, 13869191933933432208, 656537449180194733],
    [12314170545706955768, 8435742705925376202, 2274465200311771709, 3295045177641900036],
    [16437326278023281108, 12057802844814822185, 17853084348564637304, 2970745228849809883],
    [7605988447352742472, 14659245533106513406, 1309841006809246351, 332423707203007155],
    [13098404248352896654, 15990084285016393909, 7974681880614855799, 3139894223711586504],
    [16742753182583924064, 4250673825923428642, 4420399644045351690, 678476643233597119],
    [10074878565681571864, 13449906935679649872, 11840706641379969757, 1440245319652215070],
    [5161849404265577064, 17597060985121127629, 9296331484707924753, 655730069237324412],
    [12047185797013661360, 3255446742897672958, 7726110076329017900, 3441902152088550043],
    [9285553129364365297, 14856354645248461102, 18230122257024338669, 2857562605065407640],
    [17956701627877230490, 1703160509022447775, 4425487455687047716, 317432912464952962],
    [1766742156690859113, 12975737021256798334, 7164963991101831141, 512709679393730535],
    [5377608465893878960, 9016028967069164857, 16707005357577932276, 1473772480818458802],
    [11031840944173010249, 3021481246518049884, 4289632243530371066, 2522930791511349299],
    [17313996030158953602, 8449980891503394139, 215024405453385317, 2395685427559914695],
    [123053036519983641, 1016524139429150620, 9150815702017651054, 451320655196354259],
    [3592398752285161831, 18055867012814476059, 4243428934952196325, 2745105881616699878],
    [15381082209706748883, 8543872774733658258, 12245489666606308557, 2937783693986573707],
    [912864771658019019, 16497091237517762222, 3711658926194631505, 3043969792405127415],
    [8549067985056420105, 1123363324904431995, 7852578108719323213, 861054879611630920],
    [8934006828012934292, 16748863985164862115, 15067255946734554553, 3284872920232754726],
    [6594061977358274877, 6057683528096237808, 15952552170746038093, 2222793559917244318],
    [7096723536995519113, 6548574590583334917, 13164514485564175538, 39786946991700330],
    [6114979008773845248, 9499685437447602, 6122761930687974700, 323567265836650710],
    [2379742280137992758, 565009998406349065, 11930002607312737278, 1842474001563074264],
    [11429466777715778997, 6565218376545817434, 13257829240331784832, 157142643026892494],
    [10924124001421142612, 9785791838631832628, 17515020999796672754, 722898986035373657],
    [12787805700061242749, 18285418588780257891, 9786428701724631179, 1031316690802647237],
    [8743140537508046447, 14121253947710217770, 13536508108920169782, 1539430285647898912],
    [7497452275118788219, 17204698727700802457, 1892594461135585011, 926616024205587910],
    [15579951586443799526, 14979653640705017769, 15348660190408129875, 2530609276123512710],
    [7938973992291447673, 2509465082928581969, 11256648441698539409, 483249070039611231],
    [9532178871633204780, 10284208207214579320, 6747478691548108979, 1650126258290651309],
    [5180730671862192299, 12049312853228648664, 7412429583307065832, 893584318559690959],
    [11644526538070762100, 9200359479349266428, 7434229841778327701, 1534121195284285366],
    [6066180437188539967, 3218079081163889607, 5614163657068977414, 1577586598077972268],
    [38220222293127102, 9142301249175981889, 1423093192179136549, 1252473004200326666],
    [15839420680389065818, 8401567300168296024, 5431047135108904976, 2862103291715310810],
    [11362956896198842845, 14738365751541732563, 12577709338150268143, 1891816902363518440],
    [7332433687162308270, 4623860093209559405, 2935633083041746225, 1917455076300165256],
    [13066443817068625296, 7967312563452907222, 10695014556084606171, 1543304554934450607],
    [3501965118434221610, 8047825954067941424, 3244660797597450496, 1500355118103961128],
    [104282280783828615, 5366225443492994801, 13263874108289533529, 231538988166483891],
    [10836049481068125032, 10652903220807604333, 1159581616648693851, 574415072774382966],
    [8197406331134664042, 990494352590368641, 3429165884981119407, 1534680231685007693],
    [3205423821669687933, 3380523947862328192, 3629309317736025086, 1987085736509079368],
    [996995169810677280, 13258246361224482678, 14879749546129501699, 1919736895608609766],
    [17360533007488876253, 6597021582278348133, 8405882879321078471, 1723610800590451827],
    [2056809165898169185, 3964064682160228550, 10383805274940165250, 2097434883270702047],
    [7999361206751341040, 2498091590451094097, 14735279033577792348, 692848428176855590],
    [10791255026831888276, 16287555042045942402, 17448518109022916125, 1593803346149304746],
    [15449841464874015221, 7031049473914458199, 1896616591696232609, 836461431116489934],
    [4783475194037568294, 18017753306241057809, 16669822439396330312, 2054863684991284589],
    [5578361989585216657, 12750622988611013051, 1213168384586963115, 2880552226803193904],
    [14431237405935028139, 12378335095170548585, 18276630154017453268, 2776483438237887981],
    [7831237345708400104, 14222001113285929189, 6691673468027692162, 3403411704325748713],
    [14794934766898276736, 13049369180718792824, 7706476279902967813, 1231470949980076454],
    [12172548239730875644, 3903275228007944918, 16868411873540247128, 128147262265941376],
    [13554680882649742909, 16248473935024894580, 4820044049834848929, 913538673302464363],
    [12981498359563771735, 13480879210063862389, 302321497534195440, 1959272102061159293],
    [16923941752241788959, 6183289293628594096, 2606810975980471161, 1847979573019434884],
    [10057511983858119879, 814250624470389283, 5568779312184870949, 3035294466738861718],
    [12838671788889244481, 12167782851160795484, 15844132236206540560, 1597104706760452610],
    [14474645518510907934, 12778265620286221313, 18019124150521418950, 1070049440586814510],
    [15800273628310871087, 16114603204362970973, 17712613504253018769, 2113244266443954791],
    [14616634436441255374, 5833535266473469064, 9491931544137004126, 516683203359954869],
    [8460226915623795937, 8226568236766740861, 8346307547646357679, 2803259621651943448],
    [8326969707854168765, 15993619307195204561, 7230618923959496927, 2250862366922494156],
    [15876465784988380534, 16946802417375214049, 10793047629625701725, 2160378010449319694],
    [5973633001442043584, 13657264283166628054, 1220980252312921753, 819908669793768895],
    [8251799697056784984, 7138383483967754325, 4137411978426540598, 582533872268355152],
    [15723653732107567953, 3866148718920525188, 9364012182623509320, 2738881971993993799],
    [931149503743437939, 18338570135466997493, 8668598243911655546, 2310921929459397395],
    [1130001293986195625, 12415889107154655204, 15879061110363878339, 143022422002993912],
    [10023854331535931707, 10383968690491299414, 7677935319347255342, 1495200001809939827],
    [8988029170949123375, 8926693176492983367, 12016256651506946077, 2669313424840191884],
    [5434395652073859788, 14878766099866547371, 16552775379939457667, 1274232549943663489],
    [17679523307712387721, 18118729188715639418, 14428664471594720050, 1155481032525816961],
    [13665794242790079439, 7449520619823961760, 1726351493968204595, 250898579458992502],
    [4580589216972201395, 9254446864970051532, 8604052484851796146, 790816155604111672],
    [9770208568259099348, 17664700350952893764, 9301031763366004996, 71441905051527550],
    [429362267412280726, 4993970061976422713, 17409749522840462852, 1693883411426733606],
    [12223443149751081292, 12363729973916881773, 5162562297448972723, 1045097833702416488],
    [4472640884709357243, 749691282279382542, 13043941926376760984, 251579271233266000],
    [4862790131651059559, 15789191684910717756, 3260815796091129679, 1196876529426215719],
    [7417769053135141866, 210211492488232807, 15043413185569497190, 1822053560917372026],
    [8473445122128601893, 16759384452483552415, 1535230530778715842, 1950268191661352047],
    [5779248913459108735, 6201833204983340895, 14521387565481552406, 3306326503811247436],
    [695712345184965030, 535128332275573276, 9628109960347948024, 1285895097047008775],
    [11749504000189137570, 11487259795433254735, 7500464958981076364, 3187489505676563337],
    [5834770382136430642, 18184005978089343879, 9198923908736618560, 542794524357768896],
    [9497254105911525360, 15856385139810722517, 16225992438552567870, 1141407954470791904],
    [9095227316353818022, 2032870053445496494, 17342727903408379502, 1577990884881455106],
    [12483880060754832144, 9340304585990410425, 5742215241324295652, 956696978649847388],
    [9116177055058475175, 11474277652878086254, 8801149858914396722, 546406133968319913],
    [8758423333241481633, 8074446353757404629, 3815709982248899867, 1369250507997982761],
    [14606906402028917310, 16119465328537713049, 7356032164681140958, 1891301009528403876],
    [12776391032480883960, 17266640231539710102, 14269197325731914073, 905817000102578666],
    [12513235823813878931, 6904588795510289673, 18146757203125984358, 34051300523335504],
    [11296563420296890070, 7189756799432366881, 174804750037832455, 2001349971660909138],
    [13070923990577169933, 13932047696269977749, 5698558213564929877, 1303960042842392657],
    [18148595428015082859, 17593261252943476308, 14271037692722538431, 1088686138743475676],
    [6754111397883578637, 1953213838570360572, 2456983061062035668, 789108415540323635],
    [14223420425169460599, 18324756912314082718, 2490965102040825479, 356365489186659298],
    [894554309871308181, 18021623519548335527, 7627147950625683692, 241106362212820678],
    [17985295075446854786, 13504609458194239980, 14477182350300392964, 3236840586590259149],
    [6061835431125608183, 13888403299203532007, 13918309062678503308, 446937722694502649],
    [4931386105274766991, 7703858194095036931, 3764165028307720469, 2519503912273516383],
    [9460054855694428538, 13545438167627459664, 8800826923156828868, 1432992702259181600],
    [7602595042199355979, 5441489602122108187, 13630560398759357182, 1307003111272735258],
    [17609571791022768358, 1051855172393717485, 8548830011025507281, 1561923159233611005],
    [4985839913805192068, 6413866382384183385, 2319699415095208274, 425367159713832058],
    [16413236793714925974, 8211068935834938177, 10762934276210717868, 3023853159977140705],
    [585205422217196416, 18414628152597137334, 10936224822275475276, 2063704933683542711],
    [13438420113609606752, 13859304340845073464, 14172081837691222371, 1449369344812018632],
    [10369727205075913859, 15422602822106604969, 11390264791597130255, 1180879403702703929],
    [3081740646285383053, 17370468714096161508, 1816601727548018400, 728157555780262563],
    [16130264862569294508, 525877036298179623, 7835132185176348586, 599682958397858133],
    [16841188842056345958, 13007739891322147094, 12634410921827759909, 478446827207262272],
    [699244160789230793, 12450668167917228066, 14259093766593639735, 695232581457187292],
    [5341824740534474217, 8206677105715236865, 193432849813037199, 1252568124205324217],
    [434311968710970467, 11204799943354725889, 16000564686137486466, 369652337738690099],
    [16681633888810740510, 7318510771474130112, 1711338731891438421, 553129816830178508],
    [3066251116552705214, 1329146160454590240, 17534985061207169762, 2982233072628216707],
    [16314818610150074878, 12260072825559818333, 5005243936962022272, 326907941197592363],
    [17001953469872393318, 10363801738210385613, 15248844946420461174, 2018175516094735639],
    [17931220297654034143, 8280009726997875463, 14420208144986845103, 482742871592065461],
    [965895862568282604, 2775100061744398062, 7134673576900535314, 1645346567930373289],
    [1901936318339667332, 10092724785062220616, 8916640097835194558, 467769088054153736],
    [16396176417082653211, 8924328998322615892, 282331785182520424, 77774177240341417],
    [8549653405590359037, 6363097264893725141, 4473635698039148480, 1590900311528707788],
    [14212579907872395999, 6613251709567501170, 9324192446640813101, 2699720108347004469],
    [2414689110125427228, 10229698412695908705, 3530818968735767649, 1002159262661728014],
    [17826600257388438568, 9152496227564062722, 4839091723354245036, 3437311639385373889],
    [8783689022939144855, 10060327818173973463, 7194545427723862306, 1974832242344224248],
    [1828745144329258001, 8229552733049325309, 9253621446444245859, 2919108149229873400],
    [5625715425282414773, 10607614034906789449, 2929183767840535707, 846406179278264477],
    [11058494911016539028, 14491159301608666119, 16480453018356914354, 200140763666581492],
    [8394026913663167322, 8194252597452326028, 9419337637937564723, 281455098822706175],
    [2983426573720591215, 1164436884436620867, 3765534384660193773, 3243240375947971490],
    [4207724768445352361, 16445889289053940011, 18389114643778689001, 2993782282360417935],
    [17399773131167166442, 6870011180451287118, 10990248972522187820, 1794193422266502856],
    [3071708307867252344, 16272457235936777803, 399563390845961208, 3266132808972106646],
    [6761392440235438397, 3753445239015609096, 12781650075335606130, 383499777825284386],
    [11362751309040384805, 498437536730748393, 6055716523294375149, 2757301203121498683],
    [9874747036069466290, 14050155080494048102, 757510024079725627, 344472650090184220],
    [8774342508270923302, 6041638585257337437, 8876325564233116646, 1119656764678932086],
    [7919718798051305850, 9064771430796755922, 13507964592216201841, 3344644297792458665],
    [16747934809922243756, 4068819424207897601, 10754811456108080857, 3213813111850694002],
    [738872181805817452, 1454309981149031427, 7103047660461311423, 1435195991589834081],
    [5306205001393567693, 2309427002745919753, 14373143874567836398, 1704736728627814438],
    [398037540145976526, 8903096221354767968, 13640264137750549010, 3363409839726564961],
    [3374937270395017130, 17203526055576467503, 322326414025462500, 1821698081489180710],
    [6607714561145478790, 2203546215735199069, 17504461231948323350, 3150286687432197793],
    [3703810275977884766, 16576613192367616363, 8037794294169874978, 107478827950384277],
    [242523169139344700, 2069250225513834510, 662841038878371765, 1975426409207727273],
    [12950999015264111466, 4774951262078507033, 12334728896098825404, 1718498265469121335],
    [11040918235445777845, 9432851327775082958, 11981256229849795919, 1345284068142654319],
    [11742845617344188953, 2984698318677679764, 3088551484635590345, 984282794084780605],
    [16604668829001479544, 16822307743466956867, 9653314998008218672, 1483596597765711133],
    [12561644210071919006, 7021952810632430417, 5357316577509852594, 3351123962639919796],
    [683900153687818384, 5501685370393601248, 13370908531805268094, 3440342658827055766],
    [548265206633978253, 10569599442714938736, 3209973460184928605, 2883663155556440130],
    [4343107777449759765, 14465632924079923763, 7454684322914584228, 3133283466647220990],
    [7991085787267064341, 9075336909747434140, 3111305369287752721, 1103499684143128287],
    [7261130732615180414, 5114645782998909539, 11228450050459573634, 3358368965818626791],
    [10847302999086885941, 11586872451705007105, 6479045676716702762, 582406563950559412],
    [2028603879555029223, 958508741905441748, 10208711907822417361, 539825734711253984],
    [7055867247968399840, 15604778936368521397, 9301189795922886063, 3486319742216642207],
    [15345005316893419823, 18392284713977811728, 4985499098882252172, 1103382743782490698],
    [5759741835838879651, 6152210871428872726, 5844427323247964251, 656825280997797191],
    [9126207895799240019, 18016487121653362860, 3483824150548090293, 2106064440956393744],
    [2982873029254626234, 8378113731590268073, 17190974494175863232, 2200521562997573220],
    [16852516095891128177, 2465215138388416799, 1478558468294839031, 2038931473963399805],
    [17331581840578820451, 6823900685266329891, 12854395213007467068, 3061464746730160867],
    [12410548618773043332, 5319611123903988614, 6952739357503016479, 59829102249453037],
    [6244998970083721559, 9537968755542510539, 2763365990988502184, 1726060656243717478],
    [400863006304671553, 5175462256377994871, 6607901361574421964, 637390291529813822],
    [6601025685283670599, 10976492522185296010, 145146670659626487, 1866428089073651944],
    [3309085096703205254, 768604529943774432, 3736767975682459402, 679215866725555858],
    [869438247689714440, 14240768057378992529, 18220161475399528622, 52254720489401935],
    [9685579634599964416, 14782202649761710343, 9768718211281586972, 2557275600578993033],
    [2701483181967965675, 13587687252937611490, 312647515665860038, 1363756122230565827],
    [11519046281557444832, 12853065223614653828, 17708602501105054505, 2981688624730443046],
    [12133698849623683585, 7558361462750731260, 18336981000402654211, 1015324766576824453],
    [12727842668221314275, 4804281988227654149, 6896756847290373858, 3013286467996116237],
    [14667944083462381954, 17501236177322763643, 12544111769870258391, 576037972399141738],
    [6716757315950209805, 10316690757402906633, 2494126422514418650, 2281209420093929690],
    [10680032993567374637, 4353315606237099281, 18160405901680531237, 2666090653770073069],
    [11074565877432807287, 1658216829706173523, 10368500815696185798, 3263924968575017760],
    [7090243151536667639, 5726500348053616730, 341730475218140809, 157939893449094719],
    [13836067788134259093, 12123225022433734177, 60230081330035003, 1975936251775763743],
    [10169257294943448030, 13602396612109961196, 4345906584008732689, 651005460393414929],
    [601771237629717328, 3672477846599902126, 10248082791437067548, 978675224730087455],
    [17693447351942779183, 17761912657855894461, 27642314337671835, 138074338510759677],
    [5880162278567491462, 3935593492137811558, 17183422451964059482, 938795453790474182],
    [3007890837444959533, 8584283022013113050, 670321938501446499, 2739421830206697574],
    [14635254408298617885, 7450148625355495921, 10917377231981471218, 1883241562887762119],
    [16665820445422000006, 16080284244081499100, 1551527751577378137, 1490167324911945806],
    [15472793360308681330, 1699578325034505177, 12197247415588040917, 45747517915650341],
    [15298472865446351319, 1712323890360079372, 16799233863560669124, 1696592102670153236],
    [16274209329507226674, 15928266333973079929, 3185959560930857712, 37346608663624569],
    [15970907146446294770, 14533747113876403080, 11202472610917995907, 2929215940525617305],
    [17745554318231994781, 14517966720095548501, 12558656408267763871, 1945038578754202380],
    [14033687703146441133, 5980404565607633406, 1547416521473112683, 2259963415925771201],
    [6488779254827568787, 2634342279874074074, 17965533424605306304, 2885716861919479241],
    [6882834240734081836, 8693015403263099335, 13149700906532305044, 766542139314864780],
    [13729288296713060468, 17242804558290358855, 13756727176145218263, 3307083580654344181],
    [5627905714045042433, 14955849713984422293, 6152687892270815795, 1458245306662920767],
    [1454190404609073006, 14629145114547232822, 12583824378746666366, 1456099316804776119],
    [6494265590270531820, 9525169246556575904, 7734935110131355649, 317823251693998718],
    [6943536247223862698, 9439157656800165018, 4343504959674294861, 3316177770981747344],
    [14239511810274923033, 13449704901304409840, 3375366365192899519, 514628150688187696],
    [4023141608835640849, 11317777765995286238, 17734554067108551091, 2524828806740375350],
    [16005707731012347786, 17541385074705526385, 6209942674179400092, 1661339198233345203],
    [10246795664919021065, 7251767752153071040, 177002730795946156, 2179369193448261657],
    [127706830155293929, 11363557334719580848, 8810742569068646866, 691357980353095386],
    [11493927521513539729, 14277297732005436931, 9091992915613915571, 2701478142845744740],
    [5072476044235515825, 8267443588798126214, 8786585401564002050, 1099781905974035881],
    [7333894138059854468, 13238415268766121465, 3188093587038267267, 2153467374589879651],
    [5346508287131161225, 12162476841151114923, 13643261329942554420, 1365799112857439867],
    [11806021114320719173, 13632775309619984712, 108067139170674908, 1144592869197791998],
    [18444074974006194884, 428198320986095756, 16251310805674674291, 1186042853137189070],
    [14072058405732346172, 10419171461806138432, 3696830867283672559, 1901873142894063915],
    [8767685642499687123, 10649592975293700284, 3788138199901930802, 2984287470781795417],
    [2141926106549199420, 2429233122695485260, 15896392553520255334, 1409333983570300433],
    [1186740305132716216, 17063678980415154434, 733687722773530575, 2929412177577761840],
    [77549367568390625, 4864838666403183738, 3929233009761698688, 2797501879496004683],
    [12632925020111416886, 8766151012983257681, 5793041717087735346, 2157540591880048350],
    [12384441199549118345, 5519223302017316125, 9201031483719367582, 2027878749343235168],
    [10843404137228460431, 1298533498779838310, 3668996508812694840, 3305607134832850323],
    [14455285587802002830, 10615967982191682832, 6046929862709531418, 468265544698225966],
    [3464101030608532096, 6551564091218264952, 141837937945155045, 76374502466496908],
    [11864099829455067132, 9606472169296303657, 10755560340942636477, 193713640516114180],
    [4737355783786309299, 7033579350029102727, 7396800310689112222, 1178224441982422061],
    [7846499195653647248, 5311342808868031237, 14630550733992637107, 547551916759008361],
    [9487275863344014503, 8052780228745223738, 17637044769941367709, 2782739747511720246],
    [15115869108572348640, 10567340609358900043, 8069470515597670824, 1341860523933345140],
    [7232049760442432457, 15038829931639737821, 12284684444301476800, 1870008980155746917],
    [7269749339038714930, 9122277274091776239, 12704504219000963205, 2069456242233252682],
    [10010638344221966651, 4038907917441209444, 1550391187528764081, 3444867149422983625],
    [1873113952320581486, 5486923325525999492, 4923844469709070163, 903203641130744920],
    [11287660787309157670, 12663243061656870882, 15845059828158463612, 728920690918274280],
    [1719934898627547851, 10451082416845692859, 5360138386531385709, 961220677769104161],
    [7659931681679109090, 11167507995624126628, 10108615674087159166, 3339214329158688558],
    [12351302310444394730, 11866317839987591416, 2529498565354635822, 2136962162739250756],
    [1562525862614724749, 11021885548297444092, 8789875037362913127, 1471108211561106598],
    [3997232327246090160, 16357075832841237879, 9807341083120091491, 1362909748293526844],
    [13339392804527050822, 11748252382504333089, 14301110812555742273, 2433163780106360958],
    [3237115269272230088, 2146986248012031518, 12424944096126344410, 1772325635836926325],
    [11257717393092431835, 18389995999418557036, 5699629265872965412, 2383212991592380702],
    [18381509409712962509, 4277594733113742405, 10537674296202903834, 415659559369097554],
    [14455167208567096442, 18223598425992723996, 10713952648581876122, 2871202965674444062],
    [4205649775908608261, 13586495028543894, 13120061629288379892, 1676758752892922238],
    [8390838206829700862, 8637919754131819268, 15434396962312255738, 1074540249491236360],
    [3657368075709058783, 17819072050742269464, 13136431621914770889, 1488603945859223536],
    [1387825459438503500, 267927565123716757, 14524142621733925108, 929544555634090970],
    [14269337138716874828, 11183178982932969031, 12393617833377942167, 102083335840725016],
    [573513728849687989, 3155801507788938768, 11632995383269023068, 524091901428399795],
    [409272661842527193, 2217621047918477832, 11645298799797202470, 3486333156927528049],
    [15566269178808375294, 1914309034286625244, 4285861302318895029, 1977542133592942394],
    [8856552016202979359, 16778666275019643761, 3718665199300004695, 3078964162503162868],
    [2556743203698039923, 6051476174473493211, 15754622275448904653, 1547404673087746060],
    [10847080120549276267, 10215079576659803354, 2040931162306853049, 3017269753538716235],
    [11306464612935626820, 16533729844635535093, 9316770613244983019, 2594700949355396995],
    [15466914131172604405, 9227260522214496741, 4583774746209576413, 840836531414149716],
    [5421459872801925410, 4903076036582487145, 13663136263740395980, 1328791935516510822],
    [5296863714841458928, 15019797941888952253, 10444754184065559910, 348785224117862822],
    [13120250397949522243, 8755147447938149070, 10514672159525912649, 549583194040944129],
    [11760551741691059266, 3662860316433023869, 9732512610345620491, 1456609064384043669],
    [11315800545114031791, 10178692578649310186, 3165591181044241417, 280796761090770749],
    [1977837483057842339, 11971053986347513259, 14317403710276484470, 2389592623426894859],
    [8159881973292752281, 16108626847410224268, 7157645484563843587, 1060584521074320036],
    [6421191850430797930, 12449422704921055855, 16253931521837731849, 2537993108282764022],
    [10834376565557966904, 2091444772779272432, 17032106870473792081, 174229469215661195],
    [11833276621915825148, 6583049159168191705, 294274058464403953, 2439341775268758903],
    [9409051086296365129, 13795672247923477551, 12049781186052853586, 336870277011276591],
    [7841940081644780635, 8454269354152606435, 11384689396977411016, 3308079557307535598],
    [3483439662228413055, 16864593832411026326, 3729742190630668364, 2403481795655115195],
    [12504256673621911178, 15289435617981608058, 7535800798016158235, 1910053167804690567],
    [9485958923642821577, 5260481064859475541, 13676674569376711990, 1448333096621949150],
    [2910039635839568925, 7842262893920100771, 2254065833832821453, 105495367860455148],
    [3692026040381238011, 10435245857981331407, 8899640480936230785, 261905952392216856],
    [3140367527851362973, 18233184007763374618, 14542547861645707028, 1720894652521568888],
    [1408851584075526050, 18358756125321735923, 2206119522935323333, 1593539948393587115],
    [6319066489887108022, 1060718209673042957, 2500331593489748851, 3051778343523076032],
    [3851163577761619482, 12504700169854537348, 6298813453832693680, 2825107387411752026],
    [1708231429255633579, 8983897414462996733, 9875374294339876973, 1846682943277652817],
    [11900716036787540888, 14143186675484588576, 2763037390533423501, 2140908012971501189],
    [8543356511939054497, 8097324964552195804, 12605215078962512649, 2113397547303112884],
    [17170523871531561912, 8364517516991109339, 15849530321900322523, 3105943744370842485],
    [13213979055352377000, 14661153515620810431, 9215563598667813968, 2840279555328849433],
    [16405885908265621941, 15629357381060819821, 14358262199377978637, 215844635222782043],
    [12757736707667134810, 8013931171195784881, 7128942133249929447, 2260818362894046975],
    [8742142385872974299, 801944861925756998, 12298456658455062739, 3144461069519654735],
    [14019677379580784787, 35463434336004549, 1602867783600989121, 1613148771022782496],
    [14583450494251787526, 17078195012628765354, 3759375067658721511, 1550896088703204990],
    [18204725682230402463, 9371450000575901324, 11718453725932156788, 1790127645985305421],
    [18267353263805752909, 8068175232615197708, 13548026063506166447, 452232648603283082],
    [6422568531756556052, 6790432312991842530, 17478873821753728910, 360192688560938497],
    [16297164780210672080, 11610112581736906557, 9317898989160293119, 2581627536465536439],
    [17443378956857623263, 4653677176564691200, 7451523646469872878, 2305897259543653565],
    [1627356590561622425, 11857179216027570129, 13828064410494495774, 1083445405923225694],
    [8294974028179419558, 13088095477509631981, 9466735646735807135, 1981682680791727002],
    [4261636118488144611, 12585943238714161798, 13366016228167598680, 2129745993009181136],
    [3256228125118222812, 10247411224332033014, 3055524842842170178, 2078192246198189698],
    [12457350306789303785, 10519698427142171835, 4885686552074711974, 2534547838337641778],
    [13741920750731060810, 1978327600843912382, 17275128351628448544, 1001501003849459655],
    [2338897123676856407, 12334303182527108058, 242901477618738159, 215064586098860116],
    [2466615426749286921, 15173071581937317337, 8340290018694547330, 285203123447748395],
    [12301752656986828488, 13324121441310284077, 9353488077687775353, 1019928206435412536],
    [4070564559676962574, 17667074427394356330, 11492217831294792478, 2653752775327070473],
    [17310006130821172328, 11778322457579205995, 16844617611779674103, 1485387229814672988],
    [3087528270053142540, 9308995749730196855, 1673786490059318552, 53138816871540741],
    [5762470282829633088, 17626975013956023492, 3407288154612215108, 474648221766633578],
    [562501571088051809, 347946633314907642, 1948506927526036953, 1816112981549475363],
    [11976514885528254238, 17202970749974186616, 10448456491653597770, 2807209050144777850],
    [13049043969767479478, 8030949931466475855, 7244062288498227093, 3153714440298635623],
    [3704029733579647985, 740536395618670156, 1683035502543835319, 979852479086415006],
    [13276893723364825855, 5338234497836185732, 9216248577429807277, 1275707245642949717],
    [8104603457469213235, 13403223600418305905, 13210202543141029747, 1483336498202615591],
    [1265740080021732755, 3301195751518334839, 1873986877330951861, 2785262282863183457],
    [17699864289039971095, 10911675799576245958, 12247719121948843736, 1647661941791776050],
    [5459376113692254967, 10665856688656099959, 5290736003916913297, 396857341818976478],
    [16645915125555914489, 17108293211552634942, 15568930903761339717, 456942354844006350],
    [3864085340855256546, 11184892523580156771, 11740213241204378814, 1711352083224376964],
    [10362562946672499357, 526292003215384637, 10480703640402779547, 1794265030455533972],
    [2254636636461953611, 8393359685260635649, 7620284988486014866, 191641500941414458],
    [11366088439894403983, 10373300418236266639, 441265975258170930, 216212616842097038],
    [3303308376274260655, 13102504737087019599, 3348615341960559101, 1092912502992348623],
    [5127171629616577159, 2161473795483131012, 12878517238415822792, 2789954867744966518],
    [2672829010621980583, 4278295745948988672, 2682016372809636379, 1763356775280661400],
    [7193979100652571221, 14733908873961780957, 18035958266231780955, 27814176509819830],
    [15838272808895631669, 8975245536368316063, 15211806077508979909, 721616596767531751],
    [607027235767160683, 8539618773050881856, 10528426388598216942, 1156757842077345650],
    [9009258357060614239, 14805346528021729989, 8780301770954837915, 2540630777131576066],
    [4465910258106054382, 17990228746657820693, 12418755203198707831, 3312384578684732124],
    [7967707956866744246, 15123474028988922508, 11509778251371370852, 2549641591273458357],
    [14719443763305450180, 17727495263203844180, 1881011861279107956, 486248627025813336],
    [18324077553716690290, 17782850539183005756, 18013449248779389866, 1104447826981347040],
    [628460555517458702, 17976532613697141956, 8938890674165101320, 2992837285882176105],
    [11634889000603303555, 6630430019567089483, 10590004050921361608, 883195913651194208],
    [7037912429624030191, 12966903225732218708, 12894136356688715426, 3425200352245490336],
    [2528055098546028937, 11429966455593021215, 4650279259868571851, 262409052908199613],
    [15567113469355618609, 7597286883224792421, 10517971348999878536, 2952145971722210753],
    [12946684093978538988, 409260353621975131, 8146522058465977379, 773399223230684568],
    [11012744973461297840, 18041948296897952626, 2912540735151890616, 2235187655973200607],
    [11093146854473237095, 1095891977684804396, 17492756716185750790, 466617048531203280],
    [10376281715648369620, 13103223187026978724, 8539303050645642793, 3117853300374272447],
    [3786931911753243107, 4732218895219254830, 11003771100995989626, 2590688951288434441],
    [629568578766708764, 6421154853066803098, 12017850062818203667, 2630412729168056958],
    [18361423222618147771, 11863541960924658293, 16363253178442989088, 119999977802674495],
    [7577770498144546923, 1600153032985930353, 12782912285573131382, 784716218788071833],
    [5079906606071059550, 2273117096170141833, 4344149496948784458, 1063320973497497316],
    [1408311893475964783, 9680205571852572557, 6466238598085730708, 1952011119822143830],
    [2004215749899388765, 10564595354811681876, 13363596359248500718, 1295652496363684749],
    [10635746306128029693, 931229832303611092, 15865809403550177665, 281651499045088961],
    [2411913695268982338, 9767733522772958036, 10333227615155150111, 2534893690193720777],
    [16871432838189172722, 14373494527152816606, 9945425869276181454, 1347356757593435519],
    [13268353074465279755, 14436569337946275721, 11557775602011305714, 709020221528979924],
    [2534231244480427729, 1551340873716777368, 15665372509464051230, 2802945517616316150],
    [13889549816197418624, 7489827138211043641, 11077104857686089820, 859789736366854400],
    [17629717924501054329, 12145347686186833591, 4564263251692519015, 3385708934607900710],
    [12382742358335303566, 18072920698931562105, 17586940292449517238, 2900233398154006211],
    [5424208782929959604, 7460013993029058937, 12603471142280540107, 2921068628505290895],
    [7704052639842965180, 14075023574395418695, 13473013047668706701, 421013719258034207],
    [842908582080018343, 5309232591334514115, 4291859879157245905, 1955426773159641561],
    [13357159974266707789, 7839022795966102994, 4535949809761278617, 1438182901648927398],
    [14196705712077098322, 10827663401457320399, 14231593607696877395, 71361354894337336],
    [12036167561539269523, 9756904681442417060, 19275866462422360, 1283664539762086237],
    [16816596340591877807, 16988831306094362542, 723194388185285375, 1986015640042145659],
    [17158124090261752889, 13730432770249868184, 5943582778376127007, 186690744169793412],
    [6790069164083774884, 5530735101635905477, 15314802682320988399, 477290623941974687],
    [10683968335439250589, 17817595259194439668, 11955516285072808733, 1960507507600572946],
    [11339316337756951712, 13228154268816375816, 3727577324572917685, 272490572733707257],
    [12204170779484200904, 9668716442818485807, 2947127272695157620, 2755099623567812399],
    [1962391672374983682, 14270903853073662075, 15698592657816963270, 2365856771265614402],
    [6436468832407274878, 4548107735287776937, 16625130690734250454, 1374305114031181857],
    [12501978141152968180, 17892414835931708851, 821385644315086367, 2570400456761766399],
    [15252170771741718404, 15665984199645207903, 7757746609287259992, 1773032087296093312],
    [12090483121063492205, 16669576492733916729, 13841053396643967526, 2410432502190128462],
    [2312529807556664783, 14511091592096994906, 3216825843809512473, 943431166293356687],
    [15999893681467396251, 6053704923007781131, 9337440756157317812, 2491894810779719764],
    [1945942700252595388, 7773240916124278936, 6629648005161833699, 3155511653866878791],
    [11216315431905611346, 16764847045764698715, 17311093135106765809, 1151904274296926065],
    [8841632730943523045, 12698156175264142669, 10098753941024781757, 2894452910887274758],
    [6447734783703897616, 16069602675483720951, 10362524838375748043, 2529746902728814600],
    [2242289534101088357, 16659021994838809052, 2622112355679714446, 960086338857586868],
    [6348809733930129237, 6625522271911006364, 5470541353984911739, 1048514105082155241],
    [12494578498740466531, 9727082558378147279, 10638911616558605942, 699714616397840122],
    [7842350579841400846, 6123162733250149730, 12954974221842174199, 643559599218369222],
    [1883281053720083737, 8275214339212479048, 3993434147772202822, 1503840027324394459],
    [18433555608495851953, 5507562060241251167, 196621645917455438, 1003654214847941531],
    [11874402808470577402, 9301098110490618245, 16199890593805435303, 1632248103340481188],
    [15115954964595527571, 4066511925664819635, 2205303390276591355, 1715841147743772398],
    [6379795725167365937, 17577889886782939892, 1627131109444519788, 708257825263224499],
    [9086906846721649302, 9525864301185423500, 15398441868366823093, 1735107844231468631],
    [11719242460721029755, 10028964664605834527, 17946592014653583772, 1442564071512210710],
    [8195176103635790589, 12662276444012495425, 3751236474428133726, 1298311052909859322],
    [431014202963714951, 14340783517389271381, 18378379423011817429, 1619301474613814257],
    [13626732881567739251, 12545773679935209584, 8523978969589352274, 2993034213941138081],
    [11581414613037894657, 2579326659801198935, 16971532374848988584, 930410515362464677],
    [7692015787780837330, 3345829257340181803, 8886239575235642550, 184227099667944478],
    [7960041988223776471, 16719104249370873674, 14080515287866279769, 2090974872547569779],
    [3636796003454397914, 12161833350645870061, 8616834954542533345, 3081357549442418977],
    [5019671587760737173, 2083557745951427083, 355998943376374675, 2267000455485686644],
    [17837207947205518313, 7925288982763853573, 1720597250673141548, 2963892634249870291],
    [11833850181656075199, 4557418262518427160, 15534137379864041301, 1510970853320249528],
    [1629150943900496986, 11167181718710216095, 6875709162576651982, 3291574539882887601],
    [14723417504315909849, 17428100533523684211, 13331005696231529290, 2858976277377082808],
    [16805276002317510175, 11271210648363110030, 16358581597901455696, 1435155418416275476],
    [6954226173195144643, 5777630250431331319, 4447206992276479812, 1787847604308980072],
    [13795442070474753622, 12516119199298481177, 9050167055274026354, 2795538809794392165],
    [15736597718765677887, 13757750461830576947, 640691791479084479, 923206009702198180],
    [3315220056330549205, 9285498233339904796, 7707210221932167178, 1673224521879998323],
    [16445679944480560962, 17813979415489477090, 15744578461736777020, 3286167089771779558],
    [8074540077376535545, 13332992272522966285, 16938057220633065835, 257730756527487738],
    [12968237497745219064, 4671946790079957511, 15965434991507584036, 1081998224611043600],
    [18057521557863717945, 9558497085502168586, 5550061482613628011, 3420261224513243645],
    [4374883860255556020, 4723192636884086022, 16149024453566158200, 989263016282254065],
    [6977051666377746269, 10675979920731659127, 522285816434265484, 2397322193726430339],
    [13615843972487542693, 11059304320637727573, 13653139276161323355, 2991537477356884696],
    [9449199522374244495, 3864806206289245223, 4495463387496192504, 663422991380681167],
    [10989745524934717560, 8845913443003432654, 10108158434054035516, 1012084585789705155],
    [12100974590349753244, 16392269208828311003, 3431918968282823887, 331638221876404991],
    [11318288400827591753, 1977794592477709794, 14337917717214276544, 3026410261430467307],
    [1933131485763082465, 14078561746675931366, 2405902721693493817, 2450382668434482346],
    [10132820787437771294, 11721129919755952430, 15859269027838887217, 668821182721025815],
    [10276917163385900998, 1238432731084843398, 17484343614054654578, 1204024237594341106],
    [4723523554434279669, 10791279632627477356, 6740120300654698461, 3015958801112638650],
    [12259349894476151407, 7019910180598154454, 8056595377205910461, 2231354454878069918],
    [419187232685034039, 12017500021222791276, 10702388888269252909, 1681128275309539482],
    [8311967676815222382, 8403797977913593107, 7732648697097380691, 1105981813385374018],
    [14492280099668629541, 8183380482467753624, 2173411957092484186, 768171963900656250],
    [4253045308034624216, 13408360006599299928, 3925848863979513484, 1365406884008988791],
    [2944052377480328247, 17901135469274559106, 3198013001825753789, 1626577368185733030],
    [1052791916444681360, 8427977865470001851, 16155502498301950277, 353589066934230352],
    [12452885474015929881, 1502702112448904840, 2372519585967792779, 1509055508027834792],
    [14606907184345830361, 2058912617180048921, 5657918663417395720, 313201948190281771],
    [5912883938243191570, 4701961049572454366, 17670277866599159590, 3193623325044483790],
    [13940644495338480188, 6962819183066224019, 7228279142224922321, 134597092839600930],
    [6034827720652855719, 17168378295545363761, 7357700333924717733, 753824953552087997],
    [3615701167622547505, 17313245755647815282, 16865289092829805914, 1061889973817906163],
    [11809654110909069438, 3869191649544683815, 3541273319521869953, 1988022731214561705],
    [10134781384467659983, 2199047918207232728, 1059573991325880797, 2158176649863811451],
    [57739356552937224, 7662279889628753664, 9519300244635068, 2346113257016609013],
    [9948868768424556693, 7624426980897005961, 17650574341847516207, 2622030372093514031],
    [9410815859509710618, 5260617580356152730, 8237929184729897438, 220277255800661417],
    [12718268873693646026, 16960404138954227457, 5831746771295669829, 2256924913164372672],
    [17542296097394572862, 17488818407970209661, 4379084089887926785, 2763280589756746813],
    [6129879476921876268, 13871700335050315915, 8047240443960656870, 2009222377819717924],
    [5179087234522070943, 1534910871079312195, 11832142772166747857, 363021211375989549],
    [5989620582981364085, 16077437271530954355, 13875516445329639225, 226436175635306594],
    [15461162368197453299, 11804275521754708907, 4972270874167346327, 3247382582772795305],
    [12288226615505221497, 5555952461328247325, 7593767303835218724, 556794559524180799],
    [706446047691967760, 11180896432888364501, 13241451563783171601, 2307951556052822239],
    [8332513111759165811, 16337952062652103727, 10357552974545502784, 2089286190859248306],
    [1138851503022264980, 7067142248670609334, 5795909077882622392, 1533962310032525415],
    [15854638887135536290, 8287694292829021361, 9399419404721383246, 2621748829572253161],
    [7852173664401929947, 15412165332223311524, 3165488045844405309, 3131423924325545807],
    [3833184035296341526, 12382356532067355955, 9193011576550695756, 2553493247866714461],
    [11386621089809150160, 12178553307154481864, 7385751836336610033, 1775704110553331537],
    [14758426331094020513, 1496648642614830112, 16620739616307295810, 201812576036558807],
    [18030055345079896148, 8251573166190633936, 501995861467752485, 1791106318440818777],
    [18397869092355307499, 3099598750337582827, 347909785171117737, 2324099342836157344],
    [6919037693078007001, 3482731345095619992, 13536637160459400248, 859163078544111069],
    [15487411294038106611, 2219408392319155629, 15129735762807299683, 2916624761401546553],
    [7807880701877944717, 14015214475632580403, 3340801598381692133, 118514408468011268],
    [12688651690694355263, 5666507637876927263, 9609580428840910333, 1824161860614157260],
    [8292052346748919676, 14887321917996215783, 7633119861596574324, 1420728510558290097],
    [3695520817375183342, 14479687821347016417, 18036738466263258283, 2231548529642230402],
    [10185145506155218117, 10395508104032947036, 7943520406632887641, 1417442573921743403],
    [9986099815715483692, 7180288428550740666, 5654651627406135585, 2773480040779996419],
    [4496518010321123610, 10179731839160477197, 3118495914025023938, 2613245371203274212],
    [11403988985246955730, 12041106380059333401, 3835971827674313427, 240378016267878820],
    [5336729624002178728, 2348060821431812838, 3111648552285016954, 383286728865801788],
    [6000582984847218876, 17107107220797143342, 2132886256512451204, 2933719831563884039],
    [2669091168685397763, 8386727888077875894, 4918591490465656123, 3311022605930069168],
    [12480062504888541478, 15328626453374583796, 1991071091514407369, 2004704726581072127],
    [11619410985573271570, 2690208967785085919, 8402431129307192450, 2394435229243185146],
    [15363676759428918164, 165960648499033937, 16534148630413289778, 325730932541164596],
    [3192782569776274767, 15315014814323957239, 16196124939505143349, 1523395067875130781],
    [8918712113333713465, 15890540778486942258, 3641538161153361181, 1366334783954699638],
    [10500774653062682777, 602736678179419465, 13452961503283588900, 2151067187104190051],
    [7393552592498287263, 14193609178956256662, 13639579189494312024, 1379539334627646182],
    [6763115127542190888, 12945452682084880313, 11598860160696946588, 158167968117850422],
    [12100137037462262955, 3970895909450798701, 11666432880118629484, 2306589691734904358],
    [401299497549969573, 12507692917456450477, 3773491865787478366, 3218788471464202367],
    [12920070264818927468, 15996441895166494837, 5993758507862868506, 288695787795584240],
    [16773905048395537219, 17778744771850245800, 5750100964584459981, 2866413594728492456],
    [4630757890468279907, 4749131778837190238, 12483228723155242635, 1796259694428877120],
    [15309128008861801240, 17608138484041470096, 9600623977052527416, 1769160353657184792],
    [4258120042482187594, 13402898766322713844, 2274327161923713479, 1815153626545591119],
    [5401165808633163944, 5174463198376683437, 1846166345912105945, 2291351611929487158],
    [5917174560779283784, 11042829297217475691, 15431222124531045334, 3258433044774873156],
    [13422332313772753665, 17802343732697986826, 3505776073655013579, 2603499946226797014],
    [12921850531413283674, 14625695154441408615, 6493614745431747917, 2931546944019095270],
    [288415676762031886, 11662033709956278687, 4466646075312509369, 2561208031375338209],
    [10031059774546018685, 7585785239126749231, 4510655302014341890, 1836758789886255595],
    [14139458656805889974, 6065768835081744403, 5788647102841701386, 2007669305132122275],
    [15789078357812228277, 16450512679359165500, 904055729585900134, 1254559334654659628],
    [8698778141329265211, 10374273533047237625, 12848678395518421425, 771921744906064951],
    [14296765221630696114, 1754922608203100066, 18142191561206523585, 2358097667226312460],
    [11908495447141436648, 15713114074010430564, 13244164960159747905, 229128338581483382],
    [2796811161215487752, 9011695040108113572, 1184045065482776140, 1545694835531930563],
    [4247229953555417860, 11619475411496297909, 14641037447834012512, 118785600518284350],
    [315301742024471062, 9057684204644911178, 17287955984813569185, 2174100601180170503],
    [4419742608045275660, 8925368006834765130, 15138323553736619777, 2667759167538962209],
    [157870898819940885, 711360263499626, 2884784730150107500, 1037311472461259098],
    [35973571313664121, 16297096942354833678, 10154585268037709370, 503179619895527298],
    [10066583361643964714, 10741746600900710809, 7178451631858188080, 1610091957688979619],
    [171095628524595243, 13185517355930305549, 13143607747545491110, 3112837455615854520],
    [6847832879103504579, 8742558286566368392, 14584148623094042316, 1445850843914049760],
    [14381744767176204777, 9125415322143680050, 3540636608232225648, 1749903605571556206],
    [9581624140925479222, 4451122901247316051, 14219022619289617853, 2855985839895018013],
    [8515730526111390086, 17458322509498364195, 14367556141270132395, 3006505861826964104],
    [10953523558121604252, 6781391172085630976, 5341990075530319782, 3268371765292458241],
    [5056806732262671422, 8125329966880529064, 17390950329533688809, 144894969627948998],
    [1178621116957960413, 15286811789995414777, 935691094504769033, 3219072686327818424],
    [2292657597808679057, 14251442390749583793, 1410821328933592201, 2899784046092225305],
    [5135437767664331111, 15381737593411532892, 8026219431234800813, 1271911687756909471],
    [16777887345051263287, 3150482706197738023, 15804799594256499843, 1326346885582100586],
    [8276007591786605001, 8216861070036146663, 3430076003431809498, 1369607211598999488],
    [16126668494492328994, 5230241351302907641, 17719460064785858364, 2947370444210205036],
    [3956642227911495005, 4013374749546918121, 18102013150684600993, 1224858598030545394],
    [16127071075312669731, 915019473090527801, 5031396864396142116, 3177769584864022405],
    [6774240063246139106, 18205424897276115534, 12332337571521320249, 3427928126419133173],
    [2665573255711457611, 12991731842114384647, 16491260053593704463, 3142330470831767389],
    [12874607394135110649, 8764281691815075240, 6300447214791146932, 2055254514064784970],
    [10507480366803184271, 7100524043138895906, 1500007057596482929, 566021887943211584],
    [13581865448198591282, 17784321640130612417, 3875865902827434081, 3142170997797591161],
    [128850330193298822, 13726225028885465535, 15995293078790978633, 1345920853074349033],
    [9192847929348853702, 4973062760398270582, 8407792477986089053, 3107600366971050836],
    [5955180750188429337, 15506441283704437328, 6741751242777088740, 2257442817532273831],
    [1603060014652641959, 9043507389109966748, 1047663518606647190, 382164344778043354],
    [9946707514575837942, 5796433485367538265, 14858676747291733424, 3236569520680080236],
    [2283870883455931639, 12165727829122449209, 4823225607596497134, 2679476433440068950],
    [13128700948155575689, 3551480902431322427, 1192463704723407817, 2235503972082853810],
    [14680311579784276021, 9182591435394764430, 7049195918316246994, 596057255496469235],
    [17082049208435525650, 13978515214167114241, 16296088355392844086, 1962848226221824339],
    [11935364241217062429, 14158927318718305842, 6823191543504295344, 2946867258137351917],
    [10917246159080211656, 12186278352529324629, 13640268497372913639, 701876486855740460],
    [2767484131151521677, 4799113921890667371, 12736934232247653041, 1566155831973172726],
    [16238266110877567625, 15465503847357709951, 11132704503822056769, 1856942157674988569],
    [18360457637038430874, 1109561680952241349, 14236608765552793135, 2686321723507062240],
    [6393094277438846885, 6298584737212292070, 2124924045799131664, 2229489240997557183],
    [2258707224063681835, 9011776605053405786, 13385497080713138771, 295422663640021744],
    [2729306002456473419, 8226437174413776023, 9008605495031226801, 3197238347530634845],
    [672813425638684855, 13000378790290244695, 7837715089855838627, 3150888045996716445],
    [17267110816357228464, 9342029010759782430, 8361687008764031040, 3357709328423037354],
    [6212443262753003809, 11429789173611338870, 3722794521778379079, 3251813116837281029],
    [4141579563614079625, 16785886252266703617, 14827323206301611634, 1195279017169265925],
    [18224840831834012223, 13541520395383435023, 8430600637502910784, 1305964368074043711],
    [8416030272073273454, 8606159720839300863, 6281543505804323377, 90881806607877350],
    [7079288912122485707, 15583608203985898961, 14560936050258827643, 2578878272076132860],
    [9008932048434826577, 3937594747368062319, 876796357665469937, 1887138516120306128],
    [13866528210255730497, 10700669976214348387, 6286934340057382087, 1990871845542739329],
    [652835199714273599, 18191427050246639211, 9252568983644051916, 669445650332615725],
    [17807971552493858563, 722749149261248750, 11563240324068196851, 2434282611015925825],
    [13253822085395872718, 6993073246743804677, 13811704285700986344, 1222797552336281745],
    [8636617563873203419, 1536304163719587880, 8183854704636164396, 248317279933298064],
    [16586334514598711970, 11314853832260261161, 9100595803135401123, 1375642936568292062],
    [16902218367809482433, 7626463277583685900, 15944664075688625480, 3188108418001937254],
    [5867366148423292460, 8963730275078438833, 10406022877399493438, 849542666419019556],
    [8557492674982191194, 16746537555278182907, 160716108538279878, 714615401577880150],
    [12549902277093674602, 13475906522781115815, 17991543627206048432, 1847057315970549483],
    [12287779155101234740, 7096260333110000010, 3567273155675259790, 1964940553938725906],
    [17902756753300779460, 15156153031120952707, 16115143704661266438, 1030646532907271431],
    [2218868287924980330, 17916112850137045635, 7304024019201866, 1535249298393907393],
    [8058208984029165284, 8919835440443275996, 6510925790703476332, 2590272529977382645],
    [879888806219958099, 4675437593382877924, 8648537239927718548, 3310592991887054209],
    [3818633136829941968, 12303225737348868175, 5566817588420275366, 3132967867249191007],
    [7631343201250296637, 5310142087230149894, 4772322292352720210, 2504737466498946976],
    [13339204341206056177, 16449873666963530859, 10488795793615829980, 3261826158464057618],
    [9890834577927720079, 2177271363222594136, 12344582301374051178, 2438434319454318452],
    [5589405426843125204, 4788227756036790260, 13642252065413224259, 3045413661770458693],
];

const M_T17: [[u64; 4]; 289] = [
    [12402530730010208568, 2780068107808881351, 6108883580556544952, 1831688304849616746],
    [16760007738058624315, 14977714138994704416, 15099485400212278307, 1459408332769216148],
    [13290329585728641280, 8759451726199592216, 18172779020236592936, 2571250875735062603],
    [1367607595575269164, 15689142191668992114, 5597503658356408431, 2223040889426201467],
    [17234821893172973957, 6346019454800983328, 1286755204655772775, 3455808199760130100],
    [1594841423008505995, 2418900072988194677, 7616896599899631660, 1583841824832005001],
    [15364520720192233116, 10762902286068433548, 975534760633481386, 2192877746182788062],
    [6237474939736099188, 8646388472229614788, 1077967554221443248, 3043219628070604081],
    [11076010783630631476, 6939153581520646271, 14405881663705551081, 369155927767212053],
    [7849716331187571696, 4493120988044049658, 9543781921951823880, 2933915020958367217],
    [10952138982823343493, 13661638998298410278, 13194247081773383115, 160708074172482521],
    [2345776449637788138, 7796151300350887189, 11535275141437977067, 405456357350268752],
    [8297938144506883120, 9438116736213169141, 13757333938259338888, 3196230161361382495],
    [14369303403582785031, 3654740031352026225, 7650207548292995067, 1675208624419131057],
    [1053331420022729699, 3610045341026022939, 15043109463505778648, 2336436064688964902],
    [7763893684768580856, 2439094206619196648, 17477625778434946361, 162346708306892390],
    [18372757228928175296, 12332943991865941501, 6023968960830006269, 1922751368001879252],
    [13926273402806240557, 7450230499333097305, 8645824605169795518, 1373533309232846131],
    [6435555483507630352, 4750153175933205540, 15486223355269076131, 458825432277992519],
    [148259412499692787, 11600991114852832823, 10070479493300589330, 1042235883408678725],
    [6658382597193001935, 16942661391340427046, 8859619574149172106, 835443457407216093],
    [5707329674366738310, 4151007612271744083, 9094196196504606897, 1031236648647308296],
    [14766205753756516445, 17892830434936066276, 6671578603507808423, 3476279504419740270],
    [4683096599388929765, 10613254245058216276, 6889747480588381588, 123701199323204805],
    [732056390356658816, 4923859775349857346, 3805587654218388865, 2550228010678493255],
    [3657713119060952521, 6806806300460766677, 16525976835613761303, 1821321678564966299],
    [13527439525472984389, 18217906368330189898, 16668331270272255794, 2633289939447340776],
    [6407256281275435987, 17770396752817233812, 5338887439545936215, 3349020410785160481],
    [9606792074098610782, 506142380018192411, 13630454179977841371, 2334522073205044171],
    [11478081184076739532, 17029911805369661002, 11512196945336944506, 3401998216745491696],
    [6133755642266732065, 13919193824641361282, 9930745850148555674, 1235063585218553525],
    [13834482201922214530, 15665391054745503985, 344855390010891135, 1588416931090251879],
    [7235057179062472006, 7785964610836626865, 7975515993341792865, 1396628790597629117],
    [3396830513706118809, 7776460442049075332, 14378798775984968236, 68091622987973557],
    [17468816017139843391, 11256004611060881149, 12605407631415867638, 3214604713448273691],
    [13292970590759251213, 12389271743864634641, 10398711103391961018, 3200673119344521092],
    [9309443414585314596, 7428038229988755405, 16024204597435174559, 3235929158146015758],
    [15395131504535718340, 17393016099392164381, 15355293709081240955, 782195812677892115],
    [11341747925259801930, 12461673810529856546, 11825425558386506394, 2343736696088311970],
    [13005823795870593944, 8682333878826749295, 14884338883620005878, 2542378806343805953],
    [17208242631980467292, 8074444556180176193, 10136483097785790192, 2285222140918682238],
    [8021467633377490588, 3158146470112670, 9066330853297293288, 281881255782477837],
    [15380565636080787670, 12107854622486443098, 1929803649492415583, 41195347836626560],
    [7352553189519206045, 5152082098061486982, 6252370674136826692, 1118743006516308393],
    [10845502393333859540, 4470137891678261847, 2143719101763703022, 3161500461277119420],
    [13273765311627510740, 1234791615338905576, 15617530403360986855, 1422483003182665553],
    [1012938121459134568, 5929879451633995312, 11559058850689584466, 565075175209989009],
    [3560745545459588895, 6363364977554779437, 13044335505367361958, 685885466756122098],
    [5856940752890988446, 16511791171676143339, 14165756976157590730, 1945830639848042943],
    [15493353943366124359, 3781867043900970716, 16916622708068679790, 1865022844064255212],
    [826797069110752482, 18370898567042742654, 10308832142355633244, 1856138405790668000],
    [4579379605063946642, 4360449516303135399, 2442605307490541216, 2156111170600704262],
    [10032776805514252397, 1395303989456425707, 6605255346763370781, 2866298389620457491],
    [15652720561049272051, 8608774074488591537, 9634095977518952500, 1650083696244261224],
    [11885931479878870056, 7052361044428792569, 16922994204790691152, 2312839444001869399],
    [1964900887119644796, 14806107316906619679, 11070624345151871346, 1307798155210647048],
    [10159466530223749521, 1363941259024454414, 8120638253694571286, 1217134004989175649],
    [14897066322634586991, 12425363446848242978, 1857226683012935427, 1061920806874875063],
    [17196413647698121250, 9583867266070779202, 10269292255764956696, 885206860166541524],
    [10303674673367199168, 4039996112562829385, 7137829973394449935, 65133901587920815],
    [244553293462952830, 14044673374425567073, 850195182565341258, 1984531668994080079],
    [9945059810231644711, 10888504753390911160, 1066186565975130010, 2131016405116783155],
    [31736505314178253, 5400263824909561441, 2605792296113571172, 953425807408412482],
    [16814557129918360963, 4409702752769107189, 7834325469520971367, 2722400664348297749],
    [6129615677607772801, 16193132874376391290, 10127749840364498700, 3277204584473162163],
    [8745406192097913457, 6233253248357685184, 3295259402265503188, 1682927774913168876],
    [2854692031591304814, 546125169232494736, 768816320459740584, 1305843887519553893],
    [903115631136062747, 1177387069047130062, 2672905390895831917, 2445612494553871264],
    [13665734586549372363, 16864969905183458127, 3998507980180598638, 747406968007993514],
    [8375600889479363836, 17530150585177843046, 11801338764637858023, 609262444941016623],
    [5611898855521934745, 1359043512825919934, 3379383657464600416, 490625973424140915],
    [27999374549982212, 17627596779353419946, 12278394537564800680, 467323303097120454],
    [1920431209218194089, 13364725740297300224, 13893925099855228153, 1842133058866971272],
    [10142331337482279518, 1028321259664665743, 1661513781409752247, 131268033505937856],
    [1403073822999198053, 114417838199416084, 9689623413571875566, 227236563605715697],
    [3064165501467299364, 5709444384109377756, 6401536350244306833, 913159814574650804],
    [4031007387993228329, 6535851517430242870, 5470199282814971555, 1230025283214126285],
    [3625450376778291711, 14761360087201322548, 11785311341522089657, 1434175258033113128],
    [18143360836901138, 2003410853315309587, 17854320892645227007, 2245049947394584898],
    [10342489228480215652, 5233182459485842465, 1479125610710030949, 2858185565500954764],
    [5592079640080174763, 11492155006390270562, 587055164539834192, 2250892675213243447],
    [10647924278642662185, 15035495596234686919, 16248015866964222019, 1950464597113326770],
    [16523185500159799937, 3110365843293550258, 8791880118545130300, 1172449833391881915],
    [17228610119497650779, 2309140493259488684, 6014776628180661527, 631734560321204075],
    [523874799899344603, 14310934920426634359, 12056068781427609388, 3252042886559812950],
    [13017487385809490694, 3821552852304558426, 14679186195523608802, 2354102312942351172],
    [17534803617022956542, 14289001712427579209, 7878714957469563046, 1869243302453800622],
    [15457811360892570103, 5385583605984791746, 8101968042917967126, 1798999662511452388],
    [11785826393141843303, 2950741738101975320, 3574789071394511092, 1819420068841263354],
    [11906219072031770756, 8526133383978820980, 6368657144005242415, 81047827590224749],
    [16996971616714748635, 7997894856140454641, 15639622150579844276, 2135796964708204480],
    [14818105835493677493, 4322585773043871436, 12732258255082757892, 22223437558029343],
    [11081806912831349959, 8009057386489561918, 10132529039115958161, 3388184522120156845],
    [15654892217998027091, 14763203622764834640, 4848596936675214788, 2139056459055266064],
    [5299975300484173297, 3424846710638207509, 17885149621442351484, 3091961443500857890],
    [632071582943715417, 13511771654917360094, 1541603165623423236, 692158388864445002],
    [2435024761433389137, 13612867389084084409, 10491545993794743898, 836240097947184145],
    [16008743050567802552, 15490073023443921392, 1930413474530201963, 387013188963018635],
    [17479075737020003507, 9522638372841221185, 15759661744938602082, 2809104476346400699],
    [15240812297587016041, 1050296674314653268, 18105915602567823144, 1368363688006648758],
    [17968111402029179965, 944477726237942139, 5062913527389829377, 27035833000637141],
    [15495033946524792828, 10974570186620726091, 6720254317886115042, 1104102471388514629],
    [15912543780285030522, 17959013484434951392, 14302300108993926931, 1229099117708469366],
    [10274867777482614350, 1066791283223687301, 12329900021589791418, 2998350556158543191],
    [16465231396564571014, 14182098202118234029, 12069187902328394907, 2071747803785656685],
    [1489052861905096755, 4659405444077364769, 14229393659469336584, 672600727675135219],
    [12228000555188007414, 7181777747825467390, 13110359612173838008, 665826125622267088],
    [8663987391289246291, 12622804528341050289, 679284710715174504, 314619031508643454],
    [8042583684875321487, 8185283190289242441, 11666860788480672453, 981836825593266264],
    [5422278228976592594, 17360382847676221678, 12041092035412903432, 3313362715018110334],
    [7219320143618339551, 5078260010056486862, 16333130080551995153, 1177416610420215583],
    [2417487073624428814, 16908636019513108503, 7034661322943253740, 2803158212653984072],
    [12917160217543699843, 2139222363982861350, 15690582641258574177, 388920792068544821],
    [18263958872676444567, 10511053721525925840, 3178626684565452833, 2843669006682052935],
    [10807826304888815200, 16906148439286009736, 10599258662344885303, 872064781086973831],
    [318452175015304346, 2145598907516966599, 17952824732437141029, 2875132097768455431],
    [1689208996201583448, 9426411589639607117, 1217424819028037694, 2139464772647824082],
    [4934448899796814871, 16783096612825521455, 1010325491473558503, 788000528630410358],
    [14613110512500511232, 12734219423616382768, 1801992147764363611, 630517478509012976],
    [4807751672958327998, 10795401538022348833, 142926461184496949, 382432023024140794],
    [9237212040579055578, 4297323303908603702, 3306855965829160592, 1894871818356011206],
    [10590341493026709812, 3739984058677700431, 993537532670279325, 136240923712130140],
    [16645642139694037181, 8528675301918084154, 3075432647853235452, 2577373997263065654],
    [17941774348979101757, 9317773380831781392, 17622585052515737781, 1615072956191488631],
    [974930367134157103, 5735201169967996455, 16467544536138858520, 3268275576990230731],
    [7026793177312595654, 8235859772059083970, 9004618299696354566, 1207392887574058349],
    [10302047679950270396, 16482395348392674747, 16192164437111173648, 2507453077489623976],
    [7463234348139684790, 9453518356773379191, 18365791136187984317, 1355611952680910198],
    [11164731965824970337, 16328887648497942954, 9934755763631190590, 2858159559998718785],
    [7697221319187073386, 4128685591108275919, 8285959190460054291, 1084121999130498772],
    [14858428211981736045, 8550848390982284911, 2105631708564827798, 2835701345073452247],
    [5416355535690957793, 17195804813143788530, 13997118047692423758, 210462412866564074],
    [15657020776030512687, 4226981869363538331, 4840848628253645436, 1149004954501438567],
    [16592080323293984813, 2024224053284565486, 3890741086351479967, 2629992779468517925],
    [242040348151155730, 11552613187183338996, 9559465822245322157, 3085174237256906832],
    [14828676134534562620, 14259944743965436738, 9271714079890279273, 1135976857910814272],
    [13246401305789392417, 10645763371944671267, 11531136402374387068, 2471773743826833088],
    [17558866314608787350, 17712589521670017904, 527116045014968802, 1443230864180525579],
    [2064334591750372195, 1369938517582966808, 16865702668454799891, 681969628331362526],
    [16268022249815512462, 8402848718542124468, 6455041270998430646, 95244378742357488],
    [12707178413661639225, 11901983947494894640, 17175471407705302474, 1924964477153344432],
    [6967346142976010414, 11658810654088882825, 7013314290895658430, 1973344646594051858],
    [17591871098070804402, 3261557016324540560, 2911678481481877161, 2565570181179271916],
    [15637055691523594327, 9644770669726129715, 7229260335162599275, 215844716170723702],
    [2087287745344480240, 176997588736945378, 4347880494380038515, 690962687635892170],
    [444701965427716227, 6538905409211739017, 16141546659063505672, 3480644834782749526],
    [13905637928431307522, 6264608048346341180, 15245795049777360041, 3061859464929308033],
    [2352362956145877277, 1348785450773931245, 14904113799137755901, 1353040077901869306],
    [8415414886470104036, 14828380853787170014, 5132455352195698730, 2314291596421965353],
    [11636269197455748097, 14699604640534830006, 10411344285370899756, 1264454858477182015],
    [7682470570637379157, 8427750004714987855, 8874273816844693705, 1112494573666442418],
    [5610886525152019957, 3950713353016755656, 11414911619868728019, 2941738557315088685],
    [3729480072828605746, 16309322332593219141, 3220058021620497982, 2003653185597166719],
    [3150926254429054881, 11077200718474335164, 15325690869176183111, 1038396142639982759],
    [11817345338241064283, 14580932021959032051, 6042073830235780506, 1732378128663663511],
    [12927662634600711413, 12725895726645416755, 5971685592313719014, 3194222561340067165],
    [10862679647141522981, 2392944068047725067, 14772831918904682304, 3415195378984497679],
    [18007314986865700836, 6725906540016651692, 15674989360842322168, 2547895514955080290],
    [5374514198978191237, 17128040341981227767, 15515940990884290171, 1699242629103559419],
    [13558353724478286114, 4590566517856950472, 5790256943469552640, 593943904499556779],
    [834830756663222361, 9649994535651441637, 11628108960757189316, 2496817769961063126],
    [2283710882163847582, 16462958365223532875, 14173612925058349839, 3247527275790773284],
    [11173536833145026556, 8121089823193888135, 5908957374471122966, 2764158799835069698],
    [10101197291919063070, 15899697583752300847, 13646064096944444242, 1091789064305083159],
    [2681536615634150293, 5638682500510456152, 7542120163278926302, 2699496367917591175],
    [10084717955419041946, 271325506044639256, 7096669836119879207, 2223749010573832747],
    [12478116468936962360, 1900567184849968048, 6775366505810580997, 1707883748238647039],
    [17991963335573368563, 11013667590987479913, 3428854055022128248, 3485949857185869835],
    [13639498699137939533, 8116598296172651220, 15195016196333114950, 1274497564742276155],
    [377857748835748397, 4920077182682882695, 11278527319656650538, 1912803832432366904],
    [3975055103105010918, 16579383331325265509, 7381538802020451620, 1773898856662961067],
    [35960538841128422, 12348736891037083389, 16063186108707123585, 1666488722072125862],
    [12123932240595963701, 1833725356971537836, 11456044532070222083, 2488859506197133810],
    [12878284815329283190, 3166964331337713834, 7858662934239655975, 2455073550919047756],
    [7218954332335597108, 6961133121742101008, 1417207075289925859, 460662472157701031],
    [14704350182815274892, 4513379441469786871, 13892911011651350278, 2221621914827469918],
    [4917662600022112238, 9834028627000716194, 4870038385807533869, 1584812586585831465],
    [15169587958609053796, 626497618058093035, 7876321602605022069, 3100616317975778471],
    [683108237686626260, 16637151107753989684, 3509138426896772954, 879408548968508339],
    [2064798071455507396, 11370545293285359861, 16678017506290517931, 360255511289611008],
    [3438799188365043560, 13354465491806490129, 5220131577090297439, 2933878774035574903],
    [2745888261789821383, 3144583023114360156, 4633893416920975623, 1826246729951003159],
    [18272872829112518686, 15096335536063264247, 48239588198351197, 2352409311848835956],
    [10751274243726771246, 16652130312796802022, 11850391595949958544, 2544870863559383559],
    [8153364665374556824, 10864194085289193449, 12735036076937866900, 1178213976856746022],
    [14521674654387765913, 13856503026913705952, 16674333765078455568, 794054688100296065],
    [10498329754098178336, 7963719243229344205, 4354499616649511206, 1251544145186750133],
    [15654387354962708261, 4693720610774796102, 1428476284959360068, 2133522861497334553],
    [12975312366695040784, 14936242754658678567, 9935126524178282201, 2305977215620708743],
    [8133376504295899106, 13785312652295469126, 9830059794589672990, 1637872787642851326],
    [530974574068073005, 9612412334183917832, 15623314633131931951, 2493487541712729984],
    [8567366054206475462, 6454700011156327261, 5290285637925950371, 3001000323330495557],
    [4354040327235662494, 512989673964381425, 3459500901858533405, 863819976480820122],
    [6452435363337323173, 8311545220253000103, 1350880797049555393, 2307344292268697532],
    [9738470676897581182, 4644909018254714889, 11642698876845117165, 3310708153767676994],
    [3241667290678781402, 4997606151006807064, 812397147308139326, 2112101301796063271],
    [8460533797367061810, 13649502100313088909, 15780665814719564037, 1861941376197458035],
    [5188938713171631648, 12610716943370300595, 15962498263398720505, 2894127810556594635],
    [16548932020332108310, 17754213059940174494, 10684862932904877581, 3479989005396255216],
    [18348049373746911495, 14624287002610853964, 12788470435134270197, 1844246582480054570],
    [8551488167542740425, 18415008015826711691, 14957395833709127258, 183035094202925665],
    [12071079251398818670, 7696834297080357281, 14754526154804105177, 1566577072626326506],
    [5793454367919120703, 18135141209844081876, 17139970702842549097, 562372918627209116],
    [17949727259151973226, 13517864781319327630, 1351664322417355707, 1525954655923760285],
    [2937692694779748494, 300360938237290254, 16226801287614023663, 1259064260653840398],
    [9143875378227029004, 1384794865643167645, 841772307251492321, 2494330370447807131],
    [17916426428731490743, 6261772667263339997, 4263728881858331105, 3325518855290288400],
    [12648478517801993881, 12572708253949321987, 5498847392347868619, 2425504979431003281],
    [2769914830727867136, 6842631819466244144, 9935444709912611798, 3022051822547655509],
    [10800359410277533096, 4192003692416863956, 17032174580659375819, 362161150892922603],
    [11666465721334571521, 7674071952810687878, 6448260904907440825, 865449005308532123],
    [1804682536214354714, 14341908402916516901, 9894199543127620225, 2640348493907600898],
    [11779275854580781142, 16844421233868556365, 8123693934893105064, 2300803434244567625],
    [851503670587487531, 17153149596012870832, 8190823069158633741, 1833277592429356195],
    [13617474245153474737, 14460189660569613446, 8107328203409050936, 2842001481199080186],
    [1636511512895337952, 14777899009732662040, 2104845301192113599, 639509395992166289],
    [1685950756567397991, 431025247669672657, 2687280137050789872, 2071562905636974376],
    [2306040034473778820, 7372956862047184964, 2329551779411184788, 2438460167517597995],
    [4969413952746356010, 9634533825296926335, 3699972669745508342, 2449366112989120177],
    [17680091024039945943, 513666894153114465, 15576296022816071323, 370187944298275978],
    [4189459806563491389, 2847222461815861336, 960476688009467927, 1396157969670578972],
    [16002411010900289675, 4750460332353032990, 12616994501082837863, 1029149899472405299],
    [11710568204139987404, 7359625299600139846, 14131818419680720933, 1240660084834862270],
    [17085072791632961149, 7454541159771099616, 1781095546144370778, 2255042639279033628],
    [17341067125082681795, 4700082270866369804, 1616805472979875687, 840103063800278958],
    [17445218305944025276, 5702322670369568134, 9642081690449061396, 3470195682973856527],
    [11878480131039423557, 11760602433680784702, 7383120342686657216, 326792761440984675],
    [706339463534661309, 7426233758495779879, 13694352785035949943, 1891902069853406279],
    [4009672435965916272, 3509924733325309860, 10909682503335389302, 3356390380346239438],
    [8580171917329947886, 17716039741022543198, 7319439965416772349, 2510448413410962027],
    [13432566545152589670, 8514273205824764952, 11258268023359333628, 1011301892738710932],
    [14252243393526107735, 6832502054547780851, 11137659865582459629, 2856815997053675682],
    [2432925178160025974, 11813034642788938218, 14711952640493978008, 514380162199066971],
    [894498992595242219, 2046237955549072434, 15961501213158196341, 1521666652235514624],
    [15879612320741017878, 1372578499961519751, 5966282469123783394, 1437119711937886439],
    [3845497920229383617, 18246339011437821738, 3652471672519456903, 469001751452017207],
    [15661400477547920494, 13373227855020423594, 7375821023602250262, 2180185797087511533],
    [10233951255129959274, 2862862711593247782, 6632177002137226193, 456946941880906149],
    [18322655300931761252, 3316134899289554591, 5564914323192234053, 2061899823735317188],
    [14507822054083817769, 13465097439203997103, 16452616553564386035, 1238494028689551157],
    [3718123617513351736, 15244615645827089355, 10550100247473409910, 963693014626090795],
    [18394763264242436425, 10342568488573899446, 12146278212098696103, 3320923492603539125],
    [16211556627361948591, 1729633442271540135, 5355072912854576415, 142387571435001875],
    [6627888033675634450, 2891481803835708634, 7182290650042519055, 2907953691035219340],
    [11521739771154024464, 3497553304920748815, 13579220395222508406, 928829432009658792],
    [13703246790664604474, 7102873191907410551, 9947379083107780640, 74194249172769105],
    [12298875915333998350, 4665963631171458044, 3534275800537238575, 2569406183746938527],
    [1612660572353846356, 7796106323167078584, 2745733711333066272, 2595858814000608740],
    [2121150417766551595, 10480936473413196924, 9221060742748385747, 2559350278751175841],
    [16201254490819541243, 5391770342201904248, 4987959355254586225, 2689910468268951374],
    [5832695435013807513, 12031292389102981380, 3376634450582034341, 1034105707855347959],
    [1665559399756948015, 3653513507541917870, 5699268671269147971, 462851035777428229],
    [5820319458133114558, 11852472377640546365, 12800612946075533052, 1956081936282720362],
    [15365543848949045081, 8301933379797270061, 16693816342111695693, 2758282511228231593],
    [12643273934272921787, 18372986289223265066, 13915232749392221230, 2799882744941801205],
    [6585205354973273109, 3106595963689924444, 17810284709345317043, 2464687733382398440],
    [3574333243344885135, 12130536006013342772, 17408771590920436069, 1972935694634043685],
    [10677454019190857181, 5232672699145812442, 17322284848430865738, 77284600665739478],
    [15469439861151594676, 14251524441243345375, 14849442609057782336, 3310984843242905148],
    [652329787148900994, 607737746149010450, 5459291801543819027, 124604972605878818],
    [4002790790408756937, 14248428056550768557, 12509791058297503597, 554179204194875149],
    [9692603848259257547, 5074884600450337648, 3555621963772958007, 1293253160873283998],
    [4335790666864802996, 10384728747535328401, 7241729294742417734, 5585176521329146],
    [1564857396486003155, 18030228158866749997, 18342362672182393964, 2612342346982522812],
    [18222936056793829654, 182181231211419257, 14020264335845364781, 387671453695391886],
    [12867408969257822100, 7795824369539169064, 13713041701854329814, 1597752832997737511],
    [16048282370044317962, 7601621441321111548, 3699018578738639351, 1697622489336254959],
    [17609839563856826379, 15873042143352877667, 17586480865309004884, 2643570304338982792],
    [17692833357919031306, 3929132405146796763, 3362339958298998101, 329517447319299344],
    [6577639868562652427, 14523721432627424642, 14297769782334682626, 1215040748355616297],
    [2976399636609200351, 14982518249809745466, 4967125566150396522, 725595794194158725],
    [4220910620815340135, 9269914402284907621, 14946280432210716703, 2150100029525214621],
    [11306028908477191616, 2485067882864848683, 11007418392647447439, 1495367791356494465],
    [4897409308356137941, 8951448645748891401, 8182523352382596076, 1260960790459953535],
    [12748511265253548944, 13558239653903607272, 4631941782335696424, 1301104983806249186],
    [10083384792571406654, 14249259566213660464, 8413741322107565098, 475514937915434643],
    [3809006542604423118, 9830100391387880638, 2880417824809056267, 2126063220558228515],
    [17297376075619932418, 8497438429370150897, 11636796395302360728, 268260647796051132],
    [16136840955481589208, 10607001950592927502, 8455369501664886684, 2880746442438709734],
    [11045146885783599705, 3301745396588030977, 15014478681609588886, 492843249957076430],
    [636743954416788610, 10819228058928857714, 5222486504674352398, 2184379005111399954],
    [7644218649679123312, 6830748259629191028, 15805103148672934641, 468846801871238231],
    [17746102285830406160, 8696760902461174183, 15890718526025668215, 2189195908485791534],
    [16072749797498522089, 1164974479883875207, 12357183143310113508, 472590119621230884],
    [3648706146427432745, 17112709648030843812, 9516425770740655341, 1945874054782144735],
    [16113176296735229392, 5150990197769531662, 18228378493236959654, 2345673098474085597],
    [5550473584623895122, 6554653095589437646, 14130372442998852325, 2952393215422368525],
    [17208899664981596576, 7669262484078278244, 9736673355646254277, 2005853938560107068],
    [4255308517990254117, 12100168652087275182, 15718816073031539995, 2107377170502369004],
];

/// The shipped additive-constant data of width 17.
pub closed spec fn c17_data() -> Seq<[u64; 4]> {
    C_T17@
}

/// The shipped mixing-matrix data of width 17, row-major.
pub closed spec fn m17_data() -> Seq<[u64; 4]> {
    M_T17@
}

/// The additive round constants of width 17, pinned to the shipped data.
pub fn c_t17() -> (v: Vec<[u64; 4]>)
    ensures
        v@ == c17_data(),
        v@.len() == 1292,
{
    slice_to_vec(C_T17.as_slice())
}

/// The mixing matrix of width 17, pinned to the shipped data.
pub fn m_t17() -> (v: Vec<[u64; 4]>)
    ensures
        v@ == m17_data(),
        v@.len() == 289,
{
    slice_to_vec(M_T17.as_slice())
}

} // verus!
